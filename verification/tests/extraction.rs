use aghast::envelope::{
    ComponentData, Interaction, InteractionData, InteractionKind, Member, ModalData,
};
use aghast::extract::{
    extract_cid_args, extract_member, extract_user_select, CidArgs, FromCidArgsRejection,
};
use aghast::rpc::FromCidArgsError;

fn component_req(custom_id: &str, users: Vec<u64>) -> Interaction {
    Interaction {
        kind: InteractionKind::MessageComponent,
        data: Some(InteractionData::Component(ComponentData {
            custom_id: custom_id.to_string(),
            selected_users: users,
        })),
        member: None,
    }
}

#[test]
fn cid_args_decode_a_channel_tuple() {
    let req = component_req("open_form:9", Vec::new());
    let CidArgs((channel,)): CidArgs<(u64,)> = extract_cid_args(&req).unwrap();
    assert_eq!(channel, 9);
}

#[test]
fn cid_args_distinguish_their_failure_causes() {
    let none = Interaction { kind: InteractionKind::MessageComponent, data: None, member: None };
    let r: Result<CidArgs<(u64,)>, _> = extract_cid_args(&none);
    assert_eq!(r.unwrap_err(), FromCidArgsRejection::NoInteractionData);

    let command = Interaction {
        kind: InteractionKind::MessageComponent,
        data: Some(InteractionData::Command(Vec::new())),
        member: None,
    };
    let r: Result<CidArgs<(u64,)>, _> = extract_cid_args(&command);
    assert_eq!(
        r.unwrap_err(),
        FromCidArgsRejection::WrongInteractionData(InteractionKind::MessageComponent)
    );

    let empty = component_req("", Vec::new());
    let r: Result<CidArgs<(u64,)>, _> = extract_cid_args(&empty);
    assert_eq!(r.unwrap_err(), FromCidArgsRejection::NoDataName);

    let short = component_req("open_form", Vec::new());
    let r: Result<CidArgs<(u64,)>, _> = extract_cid_args(&short);
    assert_eq!(
        r.unwrap_err(),
        FromCidArgsRejection::ArgParse(FromCidArgsError::RequiredCustomIdArgMissing(1))
    );

    let long = component_req("open_form:1:2", Vec::new());
    let r: Result<CidArgs<(u64,)>, _> = extract_cid_args(&long);
    assert_eq!(
        r.unwrap_err(),
        FromCidArgsRejection::ArgParse(FromCidArgsError::ExtraCustomIdArgs(1, 2))
    );

    let bad = component_req("open_form:x", Vec::new());
    let r: Result<CidArgs<(u64,)>, _> = extract_cid_args(&bad);
    assert_eq!(
        r.unwrap_err(),
        FromCidArgsRejection::ArgParse(FromCidArgsError::UnconvertibleArgs(0))
    );
}

#[test]
fn cid_args_read_modal_custom_ids_too() {
    let req = Interaction {
        kind: InteractionKind::ModalSubmit,
        data: Some(InteractionData::Modal(ModalData {
            custom_id: "form_submit:123".to_string(),
            fields: Vec::new(),
        })),
        member: None,
    };
    let CidArgs((channel,)): CidArgs<(u64,)> = extract_cid_args(&req).unwrap();
    assert_eq!(channel, 123);
}

#[test]
fn member_extraction_requires_member_info() {
    let with = Interaction {
        kind: InteractionKind::ModalSubmit,
        data: None,
        member: Some(Member { user: Some(42) }),
    };
    assert_eq!(extract_member(&with).unwrap().0, Member { user: Some(42) });
    let without = Interaction { kind: InteractionKind::ModalSubmit, data: None, member: None };
    assert!(extract_member(&without).is_err());
}

#[test]
fn user_select_is_optional_and_never_fails() {
    let with = component_req("open_form_user:1", vec![5, 6]);
    assert_eq!(extract_user_select(&with).unwrap().0, vec![5, 6]);
    // A skipped selection is absent, not an error: a plain button press
    // carries no selected users.
    let skipped = component_req("open_form:1", Vec::new());
    assert!(extract_user_select(&skipped).is_none());
    let not_component = Interaction {
        kind: InteractionKind::MessageComponent,
        data: Some(InteractionData::Command(Vec::new())),
        member: None,
    };
    assert!(extract_user_select(&not_component).is_none());
}
