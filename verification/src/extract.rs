//! Typed extraction layer: each extractor is an independent function from
//! the raw inbound interaction to a typed value or a typed rejection. A
//! handler runs its extractors in declaration order and short-circuits on
//! the first rejection; every rejection converts into a response visible
//! only to the invoking user.
use vstd::prelude::*;

use crate::envelope::CommandOption;
use crate::envelope::Interaction;
use crate::envelope::InteractionData;
use crate::envelope::InteractionKind;
use crate::envelope::Member;
use crate::envelope::payload_custom_id;
use crate::respond::Describe;
use crate::rpc::FromCidArgs;
use crate::rpc::FromCidArgsError;
use crate::rpc::get_custom_id_rpc;
use crate::rpc::spec_split;

verus! {

/// A command payload coerced into a structured shape: which option lists
/// coerce, and to which value.
pub trait FromCommandOptions: Sized {
    /// Whether this option list coerces into the shape.
    spec fn coerces(opts: Seq<CommandOption>) -> bool;

    /// The coerced value is the one read off the option list.
    spec fn coerces_to(opts: Seq<CommandOption>, v: &Self) -> bool;

    /// Coerce the option list.
    fn from_options(opts: &Vec<CommandOption>) -> (r: Option<Self>)
        ensures
            r is Some <==> Self::coerces(opts@),
            r matches Some(v) ==> Self::coerces_to(opts@, &v),
    ;
}

/// The command-model extractor's result: the coerced command.
pub struct SlashCommand<T: FromCommandOptions>(pub T);

/// Why the command-model extractor rejected the request.
#[derive(Clone, Copy, Debug, PartialEq, Eq, Structural)]
pub enum SlashCommandRejection {
    /// The payload was not an application-command invocation.
    WrongInteractionData(InteractionKind),
    /// The request carried no payload at all.
    NoInteractionData,
    /// The option list did not coerce into the command's shape.
    CommandParse,
}

impl Describe for SlashCommandRejection {
    open spec fn description(&self) -> Seq<char> {
        match self {
            SlashCommandRejection::WrongInteractionData(_) => "Wrong type of interaction data"@,
            SlashCommandRejection::NoInteractionData => "No interaction data"@,
            SlashCommandRejection::CommandParse => "Arguments could not be parsed"@,
        }
    }

    fn describe(&self) -> (r: String) {
        match self {
            SlashCommandRejection::WrongInteractionData(_) => {
                "Wrong type of interaction data".to_owned()
            },
            SlashCommandRejection::NoInteractionData => "No interaction data".to_owned(),
            SlashCommandRejection::CommandParse => "Arguments could not be parsed".to_owned(),
        }
    }
}

/// Extract the structured command from an application-command payload.
pub fn extract_slash_command<T: FromCommandOptions>(req: &Interaction) -> (r: Result<
    SlashCommand<T>,
    SlashCommandRejection,
>)
    ensures
        req.data is None ==> r == Err::<SlashCommand<T>, SlashCommandRejection>(
            SlashCommandRejection::NoInteractionData,
        ),
        req.data matches Some(d) ==> (!(d is Command) ==> r == Err::<
            SlashCommand<T>,
            SlashCommandRejection,
        >(SlashCommandRejection::WrongInteractionData(req.kind))),
        req.data matches Some(InteractionData::Command(opts)) ==> {
            &&& (r is Ok <==> T::coerces(opts@))
            &&& (r matches Ok(c) ==> T::coerces_to(opts@, &c.0))
            &&& (!T::coerces(opts@) ==> r == Err::<SlashCommand<T>, SlashCommandRejection>(
                SlashCommandRejection::CommandParse,
            ))
        },
{
    let d = match &req.data {
        None => {
            return Err(SlashCommandRejection::NoInteractionData);
        },
        Some(d) => d,
    };
    let opts = match d {
        InteractionData::Command(opts) => opts,
        _ => {
            return Err(SlashCommandRejection::WrongInteractionData(req.kind));
        },
    };
    match T::from_options(opts) {
        Some(v) => Ok(SlashCommand(v)),
        None => Err(SlashCommandRejection::CommandParse),
    }
}

/// The member extractor's result: the guild-member info.
pub struct ExtractMember(pub Member);

/// The platform omitted guild-member info on this interaction (it arrived
/// outside a guild context).
#[derive(Clone, Copy, Debug, PartialEq, Eq, Structural)]
pub struct ExtractMemberError;

impl Describe for ExtractMemberError {
    open spec fn description(&self) -> Seq<char> {
        "Discord did not send a member on this interaction"@
    }

    fn describe(&self) -> (r: String) {
        "Discord did not send a member on this interaction".to_owned()
    }
}

/// Extract the guild-member info the platform attached to the request.
pub fn extract_member(req: &Interaction) -> (r: Result<ExtractMember, ExtractMemberError>)
    ensures
        r is Ok <==> req.member is Some,
        r matches Ok(m) ==> req.member == Some(m.0),
{
    match &req.member {
        Some(m) => Ok(ExtractMember(*m)),
        None => Err(ExtractMemberError),
    }
}

/// The users picked in a user-select menu.
pub struct UserSelectMenu(pub Vec<u64>);

/// The optional user-select extractor: never rejects. It is absent whenever
/// the payload is not a UI-component activation or the selection was
/// skipped (a plain button press arrives with no selected users).
pub fn extract_user_select(req: &Interaction) -> (r: Option<UserSelectMenu>)
    ensures
        r is Some <==> (req.data matches Some(InteractionData::Component(c))
            && c.selected_users@.len() > 0),
        req.data matches Some(InteractionData::Component(c)) ==> (c.selected_users@.len() > 0
            ==> (r matches Some(u) && u.0@ == c.selected_users@)),
{
    match &req.data {
        Some(InteractionData::Component(c)) => {
            if c.selected_users.len() > 0 {
                Some(UserSelectMenu(c.selected_users.clone()))
            } else {
                None
            }
        },
        _ => None,
    }
}

/// The custom-id extractor's result: the decoded argument tuple.
#[derive(Debug)]
pub struct CidArgs<T: FromCidArgs>(pub T);

/// Why the custom-id extractor rejected the request.
#[derive(Clone, Copy, Debug, PartialEq, Eq, Structural)]
pub enum FromCidArgsRejection {
    /// The payload carries no custom-id string (a command invocation).
    WrongInteractionData(InteractionKind),
    /// The request carried no payload at all.
    NoInteractionData,
    /// The custom-id string was empty: no routing name.
    NoDataName,
    /// The argument slice did not decode into the expected tuple.
    ArgParse(FromCidArgsError),
}

impl Describe for FromCidArgsRejection {
    open spec fn description(&self) -> Seq<char> {
        match self {
            FromCidArgsRejection::WrongInteractionData(_) => "Wrong type of interaction data"@,
            FromCidArgsRejection::NoInteractionData => "No interaction data"@,
            FromCidArgsRejection::NoDataName => "No name in data"@,
            FromCidArgsRejection::ArgParse(_) => "Arguments could not be parsed"@,
        }
    }

    fn describe(&self) -> (r: String) {
        match self {
            FromCidArgsRejection::WrongInteractionData(_) => {
                "Wrong type of interaction data".to_owned()
            },
            FromCidArgsRejection::NoInteractionData => "No interaction data".to_owned(),
            FromCidArgsRejection::NoDataName => "No name in data".to_owned(),
            FromCidArgsRejection::ArgParse(_) => "Arguments could not be parsed".to_owned(),
        }
    }
}

/// Extract and decode the custom-id arguments of a UI-component or
/// form-submission payload into a typed tuple.
pub fn extract_cid_args<T: FromCidArgs>(req: &Interaction) -> (r: Result<
    CidArgs<T>,
    FromCidArgsRejection,
>)
    ensures
        req.data is None ==> r == Err::<CidArgs<T>, FromCidArgsRejection>(
            FromCidArgsRejection::NoInteractionData,
        ),
        req.data matches Some(d) ==> (payload_custom_id(d) is None ==> r == Err::<
            CidArgs<T>,
            FromCidArgsRejection,
        >(FromCidArgsRejection::WrongInteractionData(req.kind))),
        req.data matches Some(d) ==> (payload_custom_id(d) matches Some(cid) ==> {
            &&& (cid.len() == 0 ==> r == Err::<CidArgs<T>, FromCidArgsRejection>(
                FromCidArgsRejection::NoDataName,
            ))
            &&& (cid.len() > 0 ==> {
                &&& (r is Ok <==> (spec_split(cid).drop_first().len() == T::arity()
                    && T::args_ok(spec_split(cid).drop_first())))
                &&& (r matches Ok(c) ==> T::args_match(spec_split(cid).drop_first(), &c.0))
                &&& (spec_split(cid).drop_first().len() < T::arity() ==> r == Err::<
                    CidArgs<T>,
                    FromCidArgsRejection,
                >(FromCidArgsRejection::ArgParse(
                    FromCidArgsError::RequiredCustomIdArgMissing(
                        ((T::arity() - spec_split(cid).drop_first().len()) as usize),
                    ),
                )))
                &&& (spec_split(cid).drop_first().len() > T::arity() ==> r == Err::<
                    CidArgs<T>,
                    FromCidArgsRejection,
                >(FromCidArgsRejection::ArgParse(
                    FromCidArgsError::ExtraCustomIdArgs(
                        (T::arity() as usize),
                        (spec_split(cid).drop_first().len() as usize),
                    ),
                )))
                &&& ((spec_split(cid).drop_first().len() == T::arity() && !T::args_ok(
                    spec_split(cid).drop_first(),
                )) ==> (r matches Err(e) && e matches FromCidArgsRejection::ArgParse(pe)
                    && pe is UnconvertibleArgs))
            })
        }),
{
    let d = match &req.data {
        None => {
            return Err(FromCidArgsRejection::NoInteractionData);
        },
        Some(d) => d,
    };
    let cid: &String = match d {
        InteractionData::Component(c) => &c.custom_id,
        InteractionData::Modal(m) => &m.custom_id,
        InteractionData::Command(_) => {
            return Err(FromCidArgsRejection::WrongInteractionData(req.kind));
        },
    };
    let p = match get_custom_id_rpc(cid.as_str()) {
        Err(_) => {
            return Err(FromCidArgsRejection::NoDataName);
        },
        Ok(p) => p,
    };
    let args = p.1;
    proof {
        assert(args.deep_view() =~= spec_split(cid@).drop_first());
        assert(args@.len() == args.deep_view().len());
    }
    match T::from_args(&args) {
        Ok(v) => Ok(CidArgs(v)),
        Err(e) => Err(FromCidArgsRejection::ArgParse(e)),
    }
}

} // verus!
