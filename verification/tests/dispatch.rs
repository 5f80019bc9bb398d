use aghast::auth::{authenticate, Authenticated, VerifyKey};
use aghast::envelope::{
    CommandOption, ComponentData, Interaction, InteractionData, InteractionKind, Member,
    ModalData, ModalField, OptionValue,
};
use aghast::extract::FromCommandOptions;
use aghast::interact::{
    finish_interaction, handle_interaction, msg_component, InteractionStep, ModmailFormModal,
    PendingResponse, SetupCommand,
};
use aghast::relay::ApiError;
use aghast::respond::{ResponseKind, RowItem};
use aghast::UserSelectMenu;
use ed25519_dalek::{Signer, SigningKey};

fn authed() -> Authenticated {
    let sk = SigningKey::from_bytes(&[1; 32]);
    let key = VerifyKey::from_hex(&hex::encode(sk.verifying_key().to_bytes())).unwrap();
    let timestamp = "1700000000".to_string();
    let body = b"{}".to_vec();
    let mut payload = timestamp.as_bytes().to_vec();
    payload.extend_from_slice(&body);
    let sig_hex = hex::encode(sk.sign(&payload).to_bytes());
    authenticate(&key, Some(&timestamp), Some(&sig_hex), &body).unwrap()
}

fn text_opt(name: &str, value: &str) -> CommandOption {
    CommandOption { name: name.to_string(), value: OptionValue::Text(value.to_string()) }
}

fn channel_opt(name: &str, value: u64) -> CommandOption {
    CommandOption { name: name.to_string(), value: OptionValue::Channel(value) }
}

fn setup_options() -> Vec<CommandOption> {
    vec![
        text_opt("message", "Report a user here"),
        text_opt("select_placeholder", "Pick a user"),
        text_opt("button_msg", "Open form"),
        channel_opt("button_channel", 55),
        channel_opt("modmail_channel", 77),
    ]
}

fn error_description(step: &InteractionStep) -> String {
    match step {
        InteractionStep::Respond(r) => {
            let data = r.data.as_ref().expect("an error response carries data");
            assert!(data.ephemeral);
            assert_eq!(data.embeds.len(), 1);
            data.embeds[0].description.clone().expect("an error embed has a description")
        }
        _ => panic!("expected an immediate response"),
    }
}

#[test]
fn ping_and_unknown_kinds_are_acknowledged_with_pong() {
    let auth = authed();
    for kind in [InteractionKind::Ping, InteractionKind::Other] {
        let req = Interaction { kind, data: None, member: None };
        match handle_interaction(&auth, &req) {
            InteractionStep::Respond(r) => {
                assert_eq!(r.kind, ResponseKind::Pong);
                assert!(r.data.is_none());
            }
            _ => panic!("expected an immediate acknowledgement"),
        }
    }
}

#[test]
fn setup_command_plans_the_button_message() {
    let auth = authed();
    let req = Interaction {
        kind: InteractionKind::ApplicationCommand,
        data: Some(InteractionData::Command(setup_options())),
        member: None,
    };
    let (plan, cont) = match handle_interaction(&auth, &req) {
        InteractionStep::SendThenRespond { plan, cont } => (plan, cont),
        _ => panic!("expected a pending send"),
    };
    assert_eq!(cont, PendingResponse::SetupAck);
    assert_eq!(plan.channel, 55);
    assert_eq!(plan.embeds.len(), 1);
    assert_eq!(plan.embeds[0].description.as_deref(), Some("Report a user here"));
    assert_eq!(plan.rows.len(), 2);
    match &plan.rows[0].items[0] {
        RowItem::SelectMenu(sm) => {
            assert_eq!(sm.custom_id, "open_form_user:77");
            assert_eq!(sm.placeholder.as_deref(), Some("Pick a user"));
        }
        _ => panic!("expected the user picker first"),
    }
    match &plan.rows[1].items[0] {
        RowItem::Button(b) => {
            assert_eq!(b.custom_id.as_deref(), Some("open_form:77"));
            assert_eq!(b.label.as_deref(), Some("Open form"));
        }
        _ => panic!("expected the report button second"),
    }
}

#[test]
fn setup_command_rejections_are_reported_ephemerally() {
    let auth = authed();
    let no_data = Interaction {
        kind: InteractionKind::ApplicationCommand,
        data: None,
        member: None,
    };
    assert_eq!(error_description(&handle_interaction(&auth, &no_data)), "No interaction data");

    let wrong_kind = Interaction {
        kind: InteractionKind::ApplicationCommand,
        data: Some(InteractionData::Component(ComponentData {
            custom_id: "open_form:77".to_string(),
            selected_users: Vec::new(),
        })),
        member: None,
    };
    assert_eq!(
        error_description(&handle_interaction(&auth, &wrong_kind)),
        "Wrong type of interaction data"
    );

    let mut missing = setup_options();
    missing.remove(0);
    let bad = Interaction {
        kind: InteractionKind::ApplicationCommand,
        data: Some(InteractionData::Command(missing)),
        member: None,
    };
    assert_eq!(
        error_description(&handle_interaction(&auth, &bad)),
        "Arguments could not be parsed"
    );
}

#[test]
fn component_with_picked_user_returns_the_short_modal() {
    let auth = authed();
    let req = Interaction {
        kind: InteractionKind::MessageComponent,
        data: Some(InteractionData::Component(ComponentData {
            custom_id: "open_form_user:77".to_string(),
            selected_users: vec![5],
        })),
        member: None,
    };
    match handle_interaction(&auth, &req) {
        InteractionStep::Respond(r) => {
            assert_eq!(r.kind, ResponseKind::Modal);
            let data = r.data.unwrap();
            assert_eq!(data.custom_id.as_deref(), Some("form_submit:77:5"));
            assert_eq!(data.title.as_deref(), Some("ModMail Form"));
            assert_eq!(data.components.len(), 3);
        }
        _ => panic!("expected a modal response"),
    }
}

#[test]
fn button_press_without_selection_returns_the_full_modal() {
    // A plain press of the report button arrives as a component payload
    // with no selected users: the selection was skipped, so the form must
    // ask for the user too.
    let auth = authed();
    let req = Interaction {
        kind: InteractionKind::MessageComponent,
        data: Some(InteractionData::Component(ComponentData {
            custom_id: "open_form:77".to_string(),
            selected_users: Vec::new(),
        })),
        member: None,
    };
    match handle_interaction(&auth, &req) {
        InteractionStep::Respond(r) => {
            assert_eq!(r.kind, ResponseKind::Modal);
            let data = r.data.unwrap();
            assert_eq!(data.custom_id.as_deref(), Some("form_submit:77"));
            assert_eq!(data.components.len(), 4);
        }
        _ => panic!("expected a modal response"),
    }
}

#[test]
fn component_custom_id_failures_are_distinguished() {
    let auth = authed();
    let empty = Interaction {
        kind: InteractionKind::MessageComponent,
        data: Some(InteractionData::Component(ComponentData {
            custom_id: String::new(),
            selected_users: vec![5],
        })),
        member: None,
    };
    assert_eq!(error_description(&handle_interaction(&auth, &empty)), "No name in data");

    let wrong_arity = Interaction {
        kind: InteractionKind::MessageComponent,
        data: Some(InteractionData::Component(ComponentData {
            custom_id: "open_form:1:2".to_string(),
            selected_users: vec![5],
        })),
        member: None,
    };
    assert_eq!(
        error_description(&handle_interaction(&auth, &wrong_arity)),
        "Arguments could not be parsed"
    );
}

#[test]
fn button_without_picker_returns_the_full_modal() {
    let modal = msg_component(77, None).unwrap();
    assert_eq!(modal.custom_id, "form_submit:77");
    assert_eq!(modal.components.len(), 4);
    let ids: Vec<(String, String)> = modal
        .components
        .iter()
        .map(|row| match &row.items[0] {
            RowItem::TextInput(t) => (t.custom_id.clone(), t.label.clone()),
            _ => panic!("expected a text input"),
        })
        .collect();
    assert_eq!(
        ids,
        vec![
            (
                "user".to_string(),
                "Username or ID of the user you wish to report".to_string()
            ),
            ("channel".to_string(), "Channel name".to_string()),
            ("message_link".to_string(), "Message link".to_string()),
            (
                "reason".to_string(),
                "Reason for reporting (what happened, in detail)".to_string()
            ),
        ]
    );
}

#[test]
fn modal_labels_do_not_depend_on_the_selection() {
    let with_user = msg_component(77, Some(UserSelectMenu(vec![5]))).unwrap();
    let without = msg_component(77, None).unwrap();
    let labels = |m: &aghast::respond::ModalResponse| -> Vec<String> {
        m.components
            .iter()
            .map(|row| match &row.items[0] {
                RowItem::TextInput(t) => t.label.clone(),
                _ => panic!("expected a text input"),
            })
            .collect()
    };
    // The short form is the full form minus its first ("user") row.
    assert_eq!(labels(&with_user), labels(&without)[1..].to_vec());
}

#[test]
fn setup_command_is_gated_to_administrators() {
    assert_eq!(SetupCommand::permissions(), 1 << 3);
}

#[test]
fn picker_with_empty_selection_is_no_user() {
    assert!(msg_component(77, Some(UserSelectMenu(Vec::new()))).is_err());
}

#[test]
fn modal_submission_plans_the_report() {
    let auth = authed();
    let fields = vec![
        ModalField { name: "user".to_string(), value: "wumpus".to_string() },
        ModalField { name: "channel".to_string(), value: "#minecraft".to_string() },
        ModalField { name: "message_link".to_string(), value: "https://example".to_string() },
        ModalField { name: "reason".to_string(), value: "rude".to_string() },
    ];
    let req = Interaction {
        kind: InteractionKind::ModalSubmit,
        data: Some(InteractionData::Modal(ModalData {
            custom_id: "form_submit:77".to_string(),
            fields,
        })),
        member: Some(Member { user: Some(42) }),
    };
    let (plan, cont) = match handle_interaction(&auth, &req) {
        InteractionStep::SendThenRespond { plan, cont } => (plan, cont),
        _ => panic!("expected a pending send"),
    };
    assert_eq!(cont, PendingResponse::ModalAck);
    assert_eq!(plan.channel, 77);
    assert_eq!(plan.content.as_deref(), Some("Report from <@42>"));
    assert!(plan.suppress_mentions);
    let fields = &plan.embeds[0].fields;
    assert_eq!(fields.len(), 4);
    assert_eq!((fields[0].name.as_str(), fields[0].value.as_str(), fields[0].inline), ("User", "wumpus", true));
    assert_eq!((fields[1].name.as_str(), fields[1].value.as_str(), fields[1].inline), ("Channel", "#minecraft", true));
    assert_eq!((fields[2].name.as_str(), fields[2].value.as_str(), fields[2].inline), ("Message link", "https://example", false));
    assert_eq!((fields[3].name.as_str(), fields[3].value.as_str(), fields[3].inline), ("Reason", "rude", false));
}

#[test]
fn modal_submission_without_member_is_rejected() {
    let auth = authed();
    let req = Interaction {
        kind: InteractionKind::ModalSubmit,
        data: Some(InteractionData::Modal(ModalData {
            custom_id: "form_submit:77".to_string(),
            fields: Vec::new(),
        })),
        member: None,
    };
    assert_eq!(
        error_description(&handle_interaction(&auth, &req)),
        "Discord did not send a member on this interaction"
    );
}

#[test]
fn finish_interaction_reports_outcomes() {
    let ok_setup = finish_interaction(PendingResponse::SetupAck, Ok(()));
    assert_eq!(ok_setup.data.unwrap().content.as_deref(), Some("Creating button message"));
    let ok_modal = finish_interaction(PendingResponse::ModalAck, Ok(()));
    assert_eq!(
        ok_modal.data.unwrap().content.as_deref(),
        Some("Thanks for making a report. A moderator will handle it as soon as possible.")
    );
    let failed = finish_interaction(PendingResponse::SetupAck, Err(ApiError::Other));
    let data = failed.data.unwrap();
    assert!(data.ephemeral);
    assert_eq!(data.embeds[0].description.as_deref(), Some("HTTP error"));
}

#[test]
fn setup_command_field_constraints_are_enforced() {
    let mut opts = setup_options();
    assert!(SetupCommand::from_options(&opts).is_some());
    opts[0] = text_opt("message", &"x".repeat(2001));
    assert!(SetupCommand::from_options(&opts).is_none());
    let mut opts = setup_options();
    opts[2] = text_opt("button_msg", "");
    assert!(SetupCommand::from_options(&opts).is_none());
    let mut opts = setup_options();
    opts[3] = text_opt("button_channel", "not a channel");
    assert!(SetupCommand::from_options(&opts).is_none());
}

#[test]
fn modal_form_requires_all_four_fields() {
    let fields = vec![
        ModalField { name: "user".to_string(), value: "u".to_string() },
        ModalField { name: "channel".to_string(), value: "c".to_string() },
        ModalField { name: "reason".to_string(), value: "r".to_string() },
    ];
    assert!(ModmailFormModal::from_fields(&fields).is_none());
}

#[test]
fn component_argument_overflow_is_unconvertible() {
    let auth = authed();
    let req = Interaction {
        kind: InteractionKind::MessageComponent,
        data: Some(InteractionData::Component(ComponentData {
            custom_id: "open_form:18446744073709551616".to_string(),
            selected_users: vec![5],
        })),
        member: None,
    };
    assert_eq!(
        error_description(&handle_interaction(&auth, &req)),
        "Arguments could not be parsed"
    );
}

#[test]
fn component_without_payload_is_rejected() {
    let auth = authed();
    let req = Interaction { kind: InteractionKind::MessageComponent, data: None, member: None };
    assert_eq!(error_description(&handle_interaction(&auth, &req)), "No interaction data");
    let command_payload = Interaction {
        kind: InteractionKind::MessageComponent,
        data: Some(InteractionData::Command(setup_options())),
        member: None,
    };
    assert_eq!(
        error_description(&handle_interaction(&auth, &command_payload)),
        "Wrong type of interaction data"
    );
}
