//! Ticket relay engine: the per-conversation state machine between a user's
//! private channel and a staff thread. Each decision is a pure function from
//! the durable store and one inbound event to store updates and outbound
//! actions; the caller performs the actions (create a thread, send a
//! message, add a reaction) and feeds delivery results back in.
use vstd::prelude::*;

use crate::idcodec::spec_id_to_db;
use crate::respond::ActionRow;
use crate::respond::Button;
use crate::respond::ButtonStyle;
use crate::respond::RowItem;
use crate::store::TicketChannels;
use crate::store::TicketStore;

verus! {

/// A new message that arrived in a user's private channel.
pub struct DmMessage {
    pub dm_channel: u64,
    pub message: u64,
    pub author_name: String,
    pub author_is_bot: bool,
    pub content: String,
    pub attachments: Vec<String>,
}

/// An outbound action the caller performs against the remote platform.
pub enum RelayAction {
    /// Send a plain message into a private channel.
    SendDm { dm: u64, content: String },
    /// Reply inside a staff thread.
    ReplyThread { thread: u64, content: String },
    /// Acknowledge a message with a reaction.
    React { channel: u64, message: u64 },
}

/// The remote platform's answer to an outbound call, reduced to what the
/// relay's policy distinguishes: the target no longer exists, or any other
/// failure.
#[derive(Clone, Copy, Debug, PartialEq, Eq, Structural)]
pub enum ApiError {
    NotFound,
    Other,
}

/// The ticket row under which a private channel and a thread are stored.
pub open spec fn ticket_row(dm: u64, thread: u64) -> TicketChannels {
    TicketChannels { dm: spec_id_to_db(dm), thread: spec_id_to_db(thread) }
}

/// The item is an enabled link button for this URL.
pub open spec fn is_link_button(item: RowItem, url: Seq<char>) -> bool {
    &&& item matches RowItem::Button(b) && b.style == ButtonStyle::Link && (b.url matches Some(u)
        && u@ == url) && !b.disabled && b.custom_id is None
}

/// The rows hold one link button per attachment URL, in order, batched
/// five per row: the remote UI's row-capacity limit.
pub open spec fn rows_hold_links(rows: Seq<ActionRow>, urls: Seq<String>) -> bool {
    &&& rows.len() == (urls.len() + 4) / 5
    &&& forall|r: int|
        0 <= r < rows.len() ==> #[trigger] rows[r].items@.len() == (if urls.len() >= 5 * r + 5 {
            5int
        } else {
            urls.len() - 5 * r
        })
    &&& forall|j: int|
        0 <= j < urls.len() ==> is_link_button(#[trigger] rows[j / 5].items@[j % 5], urls[j]@)
}

/// Convert attachment URLs into link buttons, batched five per row.
pub fn attachment_rows(urls: &Vec<String>) -> (rows: Vec<ActionRow>)
    ensures
        rows_hold_links(rows@, urls@),
{
    let n = urls.len();
    let mut rows: Vec<ActionRow> = Vec::new();
    let mut cur: Vec<RowItem> = Vec::new();
    let mut j: usize = 0;
    while j < n
        invariant
            0 <= j <= n,
            n == urls@.len(),
            rows@.len() == j / 5,
            cur@.len() == j % 5,
            forall|r: int| 0 <= r < rows@.len() ==> #[trigger] rows@[r].items@.len() == 5,
            forall|k: int|
                0 <= k < (j / 5) * 5 ==> is_link_button(
                    #[trigger] rows@[k / 5].items@[k % 5],
                    urls@[k]@,
                ),
            forall|k: int|
                (j / 5) * 5 <= k < j ==> is_link_button(#[trigger] cur@[k % 5], urls@[k]@),
        decreases n - j,
    {
        let button = Button {
            custom_id: None,
            label: Some(urls[j].clone()),
            url: Some(urls[j].clone()),
            style: ButtonStyle::Link,
            disabled: false,
        };
        let ghost cur0 = cur@;
        cur.push(RowItem::Button(button));
        proof {
            assert((j / 5) * 5 <= j < (j / 5) * 5 + 5) by (nonlinear_arith);
            assert(j as int % 5 == j - (j / 5) * 5) by (nonlinear_arith);
            assert(cur@ == cur0.push(RowItem::Button(button)));
            assert(is_link_button(cur@[j as int % 5], urls@[j as int]@));
        }
        if cur.len() == 5 {
            proof {
                assert(j as int % 5 == 4);
                assert((j + 1) as int / 5 == j as int / 5 + 1) by (nonlinear_arith)
                    requires
                        j as int % 5 == 4,
                ;
                assert((j + 1) as int % 5 == 0) by (nonlinear_arith)
                    requires
                        j as int % 5 == 4,
                ;
            }
            let ghost rows0 = rows@;
            let full = cur;
            cur = Vec::new();
            rows.push(ActionRow { items: full });
            proof {
                assert(rows@ == rows0.push(ActionRow { items: full }));
                assert forall|k: int| 0 <= k < ((j + 1) as int / 5) * 5 implies is_link_button(
                    #[trigger] rows@[k / 5].items@[k % 5],
                    urls@[k]@,
                ) by {
                    if k / 5 < rows0.len() {
                        assert(rows@[k / 5] == rows0[k / 5]);
                    } else {
                        assert(k / 5 == rows0.len()) by (nonlinear_arith)
                            requires
                                0 <= k < ((j + 1) as int / 5) * 5,
                                !(k / 5 < rows0.len()),
                                rows0.len() == j as int / 5,
                                (j + 1) as int / 5 == j as int / 5 + 1,
                        ;
                        assert(rows@[k / 5].items@ == full@);
                        assert((j / 5) * 5 <= k < j + 1) by (nonlinear_arith)
                            requires
                                k / 5 == j as int / 5,
                                0 <= k,
                                0 <= j,
                                j as int % 5 == 4,
                        ;
                    }
                }
            }
        } else {
            proof {
                assert((j + 1) as int / 5 == j as int / 5 && (j + 1) as int % 5 == j as int % 5
                    + 1) by (nonlinear_arith)
                    requires
                        0 <= j,
                        j as int % 5 < 4,
                ;
            }
        }
        j += 1;
    }
    if cur.len() > 0 {
        proof {
            assert(n as int % 5 != 0);
            assert((n + 4) as int / 5 == n as int / 5 + 1) by (nonlinear_arith)
                requires
                    n as int % 5 != 0,
                    0 <= n,
            ;
        }
        let ghost rows0 = rows@;
        let ghost curf = cur@;
        rows.push(ActionRow { items: cur });
        proof {
            assert(rows@ == rows0.push(ActionRow { items: rows@[rows@.len() - 1].items }));
            assert(rows@[rows@.len() - 1].items@ == curf);
            assert forall|r: int| 0 <= r < rows@.len() implies #[trigger] rows@[r].items@.len()
                == (if urls@.len() >= 5 * r + 5 {
                5int
            } else {
                urls@.len() - 5 * r
            }) by {
                if r < rows0.len() {
                    assert(rows@[r] == rows0[r]);
                    assert(5 * r + 5 <= n) by (nonlinear_arith)
                        requires
                            0 <= r < n as int / 5,
                    ;
                } else {
                    assert(r == n as int / 5);
                    assert(n as int - 5 * (n as int / 5) == n as int % 5) by (nonlinear_arith);
                    assert(!(n >= 5 * r + 5)) by (nonlinear_arith)
                        requires
                            r == n as int / 5,
                            n as int % 5 != 0,
                    ;
                }
            }
            assert forall|k: int| 0 <= k < n implies is_link_button(
                #[trigger] rows@[k / 5].items@[k % 5],
                urls@[k]@,
            ) by {
                if k < (n as int / 5) * 5 {
                    assert(rows@[k / 5] == rows0[k / 5]) by (nonlinear_arith)
                        requires
                            0 <= k < (n as int / 5) * 5,
                            rows0.len() == n as int / 5,
                            rows@[k / 5] == (if k / 5 < rows0.len() {
                                rows0[k / 5]
                            } else {
                                rows@[rows@.len() - 1]
                            }),
                    ;
                } else {
                    assert(k / 5 == n as int / 5 && k % 5 == k - (n as int / 5) * 5)
                        by (nonlinear_arith)
                        requires
                            (n as int / 5) * 5 <= k < n,
                    ;
                }
            }
        }
    } else {
        proof {
            assert(n as int % 5 == 0);
            assert((n + 4) as int / 5 == n as int / 5) by (nonlinear_arith)
                requires
                    n as int % 5 == 0,
                    0 <= n,
            ;
            assert forall|r: int| 0 <= r < rows@.len() implies #[trigger] rows@[r].items@.len()
                == (if urls@.len() >= 5 * r + 5 {
                5int
            } else {
                urls@.len() - 5 * r
            }) by {
                assert(5 * r + 5 <= n) by (nonlinear_arith)
                    requires
                        0 <= r < n as int / 5,
                        n as int % 5 == 0,
                ;
            }
        }
    }
    rows
}

/// A staff thread plan: the thread is named after the message's author and
/// opens with the mirrored message.
pub struct ThreadPlan {
    pub name: String,
    pub content: String,
    pub rows: Vec<ActionRow>,
}

/// The mirrored form of a message: the author's name, a separator, the text.
pub open spec fn mirror_text(author: Seq<char>, content: Seq<char>) -> Seq<char> {
    author + ": "@ + content
}

/// What a new private-channel message asks the caller to do.
pub enum DmStep {
    /// The message came from this process itself: do nothing.
    Ignore,
    /// No open ticket for this channel: create a thread from the plan, then
    /// report it through `open_ticket`.
    OpenTicket { plan: ThreadPlan },
    /// An open ticket exists: mirror the message into its thread.
    Mirror { thread: u64, content: String, rows: Vec<ActionRow> },
}

/// Decide what to do with a new private-channel message: find-or-create.
/// Messages authored by this process are ignored to prevent feedback loops.
pub fn on_dm_message(store: &TicketStore, ev: &DmMessage) -> (step: DmStep)
    ensures
        ev.author_is_bot <==> step is Ignore,
        !ev.author_is_bot && !store.has_dm(spec_id_to_db(ev.dm_channel)) ==> step is OpenTicket,
        !ev.author_is_bot && store.has_dm(spec_id_to_db(ev.dm_channel)) ==> step is Mirror,
        step matches DmStep::OpenTicket { plan } ==> plan.name@ == ev.author_name@
            && plan.content@ == mirror_text(ev.author_name@, ev.content@) && rows_hold_links(
            plan.rows@,
            ev.attachments@,
        ),
        step matches DmStep::Mirror { thread, content, rows } ==> store.tickets().contains(
            ticket_row(ev.dm_channel, thread),
        ) && content@ == mirror_text(ev.author_name@, ev.content@) && rows_hold_links(
            rows@,
            ev.attachments@,
        ),
{
    if ev.author_is_bot {
        return DmStep::Ignore;
    }
    let rows = attachment_rows(&ev.attachments);
    let mut content = ev.author_name.clone();
    content.append(": ");
    content.append(ev.content.as_str());
    match store.get_ticket_by_dm(ev.dm_channel) {
        None => DmStep::OpenTicket {
            plan: ThreadPlan { name: ev.author_name.clone(), content, rows },
        },
        Some(t) => {
            let thread = crate::idcodec::db_to_id(t.thread);
            proof {
                assert(ticket_row(ev.dm_channel, thread) == t);
            }
            DmStep::Mirror { thread, content, rows }
        },
    }
}

/// Persist a freshly created ticket and notify the user's private channel
/// once with the configured opening text. Exactly one ticket row is added
/// and exactly one notification is issued; a failure of that notification
/// is not fatal to the caller.
pub fn open_ticket(store: &mut TicketStore, dm: u64, thread: u64, open_text: &String) -> (acts: Vec<
    RelayAction,
>)
    requires
        old(store).wf(),
        !old(store).has_dm(spec_id_to_db(dm)),
        !old(store).has_thread(spec_id_to_db(thread)),
    ensures
        final(store).wf(),
        final(store).tickets() == old(store).tickets().push(ticket_row(dm, thread)),
        final(store).counterparts() == old(store).counterparts(),
        acts@.len() == 1,
        acts@[0] matches RelayAction::SendDm { dm: d, content: c } && d == dm && c@ == open_text@,
{
    store.add_ticket(dm, thread);
    let mut acts: Vec<RelayAction> = Vec::new();
    acts.push(RelayAction::SendDm { dm, content: open_text.clone() });
    acts
}

/// Which side a mirrored message originated on.
#[derive(Clone, Copy, Debug, PartialEq, Eq, Structural)]
pub enum MirrorSide {
    FromDm,
    FromThread,
}

/// Record that a mirrored message was delivered on the other side: persist
/// the counterpart row, and acknowledge the original message with a
/// reaction.
pub fn on_mirror_delivered(
    store: &mut TicketStore,
    dm_chan: u64,
    dm_msg: u64,
    thread_chan: u64,
    thread_msg: u64,
    side: MirrorSide,
) -> (act: RelayAction)
    requires
        old(store).wf(),
        !old(store).has_message(spec_id_to_db(dm_msg)),
        !old(store).has_message(spec_id_to_db(thread_msg)),
        spec_id_to_db(dm_msg) != spec_id_to_db(thread_msg),
    ensures
        final(store).wf(),
        final(store).tickets() == old(store).tickets(),
        final(store).counterparts() == old(store).counterparts().push(
            crate::store::CounterpartedMessage {
                dm: crate::store::ChannelMessage {
                    channel: spec_id_to_db(dm_chan),
                    message: spec_id_to_db(dm_msg),
                },
                thread: crate::store::ChannelMessage {
                    channel: spec_id_to_db(thread_chan),
                    message: spec_id_to_db(thread_msg),
                },
            },
        ),
        side == MirrorSide::FromDm ==> act == (RelayAction::React {
            channel: dm_chan,
            message: dm_msg,
        }),
        side == MirrorSide::FromThread ==> act == (RelayAction::React {
            channel: thread_chan,
            message: thread_msg,
        }),
{
    store.add_counterpart(dm_chan, dm_msg, thread_chan, thread_msg);
    match side {
        MirrorSide::FromDm => RelayAction::React { channel: dm_chan, message: dm_msg },
        MirrorSide::FromThread => RelayAction::React { channel: thread_chan, message: thread_msg },
    }
}

/// What to do after a mirror send into a thread failed.
#[derive(Clone, Copy, Debug, PartialEq, Eq, Structural)]
pub enum MirrorRecovery {
    /// The thread is gone remotely: the stale row was deleted; run the
    /// open-ticket path again.
    Reopen,
    /// Any other failure: state unchanged; surface the failure.
    Surface,
}

/// Handle a failed mirror send. A remote not-found means the thread was
/// deleted while the ticket row still referenced it: the stale row is
/// removed so the ticket can be re-opened; this self-heals the divergence
/// without surfacing it to the user. Any other failure leaves the store
/// untouched.
pub fn on_mirror_failed(store: &mut TicketStore, thread: u64, err: ApiError) -> (r: MirrorRecovery)
    requires
        old(store).wf(),
    ensures
        final(store).wf(),
        final(store).counterparts() == old(store).counterparts(),
        err == ApiError::NotFound ==> r == MirrorRecovery::Reopen,
        err == ApiError::NotFound ==> !final(store).has_thread(spec_id_to_db(thread)),
        err == ApiError::NotFound ==> (forall|t: TicketChannels|
            final(store).tickets().contains(t) <==> (old(store).tickets().contains(t) && t.thread
                != spec_id_to_db(thread))),
        err == ApiError::NotFound ==> (forall|t: TicketChannels|
            old(store).tickets().contains(t) && t.thread == spec_id_to_db(thread)
                ==> !final(store).has_dm(t.dm) && !final(store).has_thread(t.thread)),
        err != ApiError::NotFound ==> r == MirrorRecovery::Surface && final(store).tickets()
            == old(store).tickets(),
{
    match err {
        ApiError::NotFound => {
            store.delete_ticket(thread);
            MirrorRecovery::Reopen
        },
        ApiError::Other => MirrorRecovery::Surface,
    }
}

/// Law (self-healing): after a mirror send fails with a remote not-found,
/// the relay deletes the stale row and re-opens: in the final store the old
/// row is absent, a new row with the same private channel is present, and
/// the re-open path issues its single notification. The hypotheses restate
/// the contracts of `on_mirror_failed` (not-found case) and `open_ticket`.
pub proof fn lemma_self_heal(
    s0: TicketStore,
    s1: TicketStore,
    s2: TicketStore,
    dm: u64,
    t_old: u64,
    t_new: u64,
)
    requires
        s0.wf(),
        s0.tickets().contains(ticket_row(dm, t_old)),
        forall|t: TicketChannels|
            s1.tickets().contains(t) <==> (s0.tickets().contains(t) && t.thread != spec_id_to_db(
                t_old,
            )),
        s2.tickets() == s1.tickets().push(ticket_row(dm, t_new)),
        spec_id_to_db(t_new) != spec_id_to_db(t_old),
    ensures
        !s2.has_thread(spec_id_to_db(t_old)),
        s2.tickets().contains(ticket_row(dm, t_new)),
        s2.has_dm(spec_id_to_db(dm)),
{
    let row_new = ticket_row(dm, t_new);
    assert(s2.tickets()[s2.tickets().len() - 1] == row_new);
    assert(s2.tickets().contains(row_new));
    assert(s2.has_dm(spec_id_to_db(dm)));
    assert forall|k: int| 0 <= k < s2.tickets().len() implies s2.tickets()[k].thread
        != spec_id_to_db(t_old) by {
        if k < s2.tickets().len() - 1 {
            assert(s2.tickets()[k] == s1.tickets()[k]);
            assert(s1.tickets().contains(s1.tickets()[k]));
        }
    }
}

/// Whether `p` is a prefix of `s`.
fn str_starts_with(s: &str, p: &str) -> (r: bool)
    ensures
        r == (p@.len() <= s@.len() && s@.take(p@.len() as int) == p@),
{
    let pn = p.unicode_len();
    let sn = s.unicode_len();
    if pn > sn {
        return false;
    }
    let mut i: usize = 0;
    while i < pn
        invariant
            0 <= i <= pn,
            pn == p@.len(),
            pn <= sn,
            sn == s@.len(),
            forall|k: int| 0 <= k < i ==> s@[k] == p@[k],
        decreases pn - i,
    {
        if s.get_char(i) != p.get_char(i) {
            proof {
                assert(s@.take(pn as int)[i as int] != p@[i as int]);
            }
            return false;
        }
        i += 1;
    }
    proof {
        assert(s@.take(pn as int) =~= p@);
    }
    true
}

/// Close the ticket keyed by this thread, if one is open: delete the row
/// and notify the user's private channel once with the configured closing
/// text. A thread archived, locked or deleted on the remote platform is
/// treated uniformly as this same closure. Afterwards lookups by the
/// ticket's private channel and by its thread both come back absent,
/// whatever row was current before.
pub fn close_ticket(store: &mut TicketStore, thread: u64, close_text: &String) -> (acts: Vec<
    RelayAction,
>)
    requires
        old(store).wf(),
    ensures
        final(store).wf(),
        final(store).counterparts() == old(store).counterparts(),
        !final(store).has_thread(spec_id_to_db(thread)),
        forall|t: TicketChannels|
            final(store).tickets().contains(t) <==> (old(store).tickets().contains(t) && t.thread
                != spec_id_to_db(thread)),
        forall|t: TicketChannels|
            old(store).tickets().contains(t) && t.thread == spec_id_to_db(thread)
                ==> !final(store).has_dm(t.dm) && !final(store).has_thread(t.thread),
        old(store).has_thread(spec_id_to_db(thread)) ==> acts@.len() == 1 && (
        acts@[0] matches RelayAction::SendDm { dm: d, content: c } && old(store).tickets().contains(
            ticket_row(d, thread),
        ) && c@ == close_text@),
        !old(store).has_thread(spec_id_to_db(thread)) ==> acts@.len() == 0,
{
    let row = store.get_ticket_by_thread(thread);
    store.delete_ticket(thread);
    let mut acts: Vec<RelayAction> = Vec::new();
    if let Some(t) = row {
        let dm = crate::idcodec::db_to_id(t.dm);
        proof {
            assert(ticket_row(dm, thread) == t);
        }
        acts.push(RelayAction::SendDm { dm, content: close_text.clone() });
    }
    acts
}

/// The static usage text the `!help` command answers with.
pub fn usage_text() -> (r: &'static str)
    ensures
        r@ == "Commands: !help, !close, !r <text>"@,
{
    "Commands: !help, !close, !r <text>"
}

/// The text invokes the reply command: `!r ` followed by the reply.
pub open spec fn is_reply_command(s: Seq<char>) -> bool {
    s.len() > 3 && s.take(3) == "!r "@
}

/// What a staff-side thread message asks the caller to do.
pub enum StaffStep {
    /// The thread has no open ticket: nothing to do.
    NoTicket,
    /// Not a staff command: ignored.
    Ignore,
    /// `!help`: reply in the thread with the static usage text.
    Help { thread: u64 },
    /// `!close`: the row was deleted; perform these notifications.
    Close { acts: Vec<RelayAction> },
    /// `!r <text>`: mirror the text into the user's private channel, then
    /// report the delivery through `on_mirror_delivered`.
    ReplyToUser { dm: u64, content: String },
}

/// Decide what a message inside a staff thread asks for. Only `!help`,
/// `!close` and `!r <text>` are commands; any other content is ignored.
pub fn on_thread_message(
    store: &mut TicketStore,
    thread: u64,
    content: &String,
    close_text: &String,
) -> (step: StaffStep)
    requires
        old(store).wf(),
    ensures
        final(store).wf(),
        final(store).counterparts() == old(store).counterparts(),
        !old(store).has_thread(spec_id_to_db(thread)) ==> step == StaffStep::NoTicket
            && final(store).tickets() == old(store).tickets(),
        old(store).has_thread(spec_id_to_db(thread)) && content@ == "!help"@ ==> step
            == (StaffStep::Help { thread }) && final(store).tickets() == old(store).tickets(),
        old(store).has_thread(spec_id_to_db(thread)) && content@ == "!close"@ ==> step is Close
            && !final(store).has_thread(spec_id_to_db(thread)) && (forall|t: TicketChannels|
            final(store).tickets().contains(t) <==> (old(store).tickets().contains(t) && t.thread
                != spec_id_to_db(thread))) && (forall|t: TicketChannels|
            old(store).tickets().contains(t) && t.thread == spec_id_to_db(thread)
                ==> !final(store).has_dm(t.dm) && !final(store).has_thread(t.thread)),
        old(store).has_thread(spec_id_to_db(thread)) && content@ == "!close"@ ==> (
        step matches StaffStep::Close { acts } ==> acts@.len() == 2 && (
        acts@[0] matches RelayAction::SendDm { dm: d, content: c } && old(store).tickets().contains(
            ticket_row(d, thread),
        ) && c@ == close_text@) && (acts@[1] matches RelayAction::ReplyThread {
            thread: th,
            content: cc,
        } && th == thread && cc@ == "Ticket closed."@)),
        old(store).has_thread(spec_id_to_db(thread)) && is_reply_command(content@) ==> ((
        step matches StaffStep::ReplyToUser { dm, content: c } && old(store).tickets().contains(
            ticket_row(dm, thread),
        ) && c@ == content@.skip(3)) && final(store).tickets() == old(store).tickets()),
        old(store).has_thread(spec_id_to_db(thread)) && content@ != "!help"@ && content@
            != "!close"@ && !is_reply_command(content@) ==> step == StaffStep::Ignore
            && final(store).tickets() == old(store).tickets(),
{
    proof {
        reveal_strlit("!help");
        reveal_strlit("!close");
        reveal_strlit("!r ");
    }
    let row = match store.get_ticket_by_thread(thread) {
        None => {
            return StaffStep::NoTicket;
        },
        Some(t) => t,
    };
    let help_kw: String = "!help".to_owned();
    let close_kw: String = "!close".to_owned();
    if *content == help_kw {
        proof {
            assert(content@[1] == 'h');
            assert(content@.take(3)[1] == content@[1]);
            assert("!r "@[1] == 'r');
        }
        return StaffStep::Help { thread };
    }
    if *content == close_kw {
        proof {
            assert(content@[1] == 'c');
            assert(content@.take(3)[1] == content@[1]);
            assert("!r "@[1] == 'r');
        }
        let mut acts = close_ticket(store, thread, close_text);
        acts.push(RelayAction::ReplyThread { thread, content: "Ticket closed.".to_owned() });
        return StaffStep::Close { acts };
    }
    if str_starts_with(content.as_str(), "!r ") {
        let n = content.as_str().unicode_len();
        if n > 3 {
            let reply = content.as_str().substring_char(3, n).to_owned();
            let dm = crate::idcodec::db_to_id(row.dm);
            proof {
                assert(ticket_row(dm, thread) == row);
                assert(content@.subrange(3int, n as int) =~= content@.skip(3));
            }
            return StaffStep::ReplyToUser { dm, content: reply };
        }
    }
    StaffStep::Ignore
}

/// Editing found no stored counterpart for the message: the dedicated
/// condition the caller reports instead of succeeding silently.
#[derive(Debug)]
pub struct NoCounterpart;

/// What a message edit asks the caller to do.
pub enum EditStep {
    /// The edit was authored by this process itself: ignored, to prevent
    /// feedback loops.
    Ignore,
    /// The edited message originated on the private side: propagate the new
    /// content to its thread-side counterpart.
    EditThread { thread_chan: u64, thread_msg: u64, content: String },
    /// The edited message originated on the thread side: propagate the new
    /// content to its private-side counterpart.
    EditDm { dm_chan: u64, dm_msg: u64, content: String },
}

/// Decide how to propagate a message edit. An edit that originated on the
/// private side is propagated in the mirrored form, author's name first, as
/// the mirror itself was; a staff-side edit propagates its text alone. An
/// edit with no stored counterpart surfaces the dedicated no-counterpart
/// condition rather than being swallowed.
pub fn on_message_edit(
    store: &TicketStore,
    message: u64,
    author_name: &String,
    new_content: &String,
    author_is_bot: bool,
) -> (r: Result<EditStep, NoCounterpart>)
    ensures
        author_is_bot ==> (r matches Ok(s) && s is Ignore),
        !author_is_bot ==> ((r is Err) <==> !store.has_message(spec_id_to_db(message))),
        r matches Ok(s) ==> (s matches EditStep::EditThread { thread_chan, thread_msg, content }
            ==> (exists|row: crate::store::CounterpartedMessage|
            #[trigger] store.counterparts().contains(row) && row.dm.message == spec_id_to_db(
                message,
            ) && row.thread.channel == spec_id_to_db(thread_chan) && row.thread.message
                == spec_id_to_db(thread_msg)) && content@ == mirror_text(
            author_name@,
            new_content@,
        )),
        r matches Ok(s) ==> (s matches EditStep::EditDm { dm_chan, dm_msg, content } ==> (exists|
            row: crate::store::CounterpartedMessage,
        |
            #[trigger] store.counterparts().contains(row) && row.thread.message == spec_id_to_db(
                message,
            ) && row.dm.channel == spec_id_to_db(dm_chan) && row.dm.message == spec_id_to_db(
                dm_msg,
            )) && content@ == new_content@),
        !author_is_bot && store.has_message(spec_id_to_db(message)) ==> (r matches Ok(s) && !(
        s is Ignore)),
{
    if author_is_bot {
        return Ok(EditStep::Ignore);
    }
    let row = match store.get_counterpart(message) {
        None => {
            return Err(NoCounterpart);
        },
        Some(row) => row,
    };
    let key = crate::idcodec::id_to_db(message);
    if row.dm.message == key {
        let thread_chan = crate::idcodec::db_to_id(row.thread.channel);
        let thread_msg = crate::idcodec::db_to_id(row.thread.message);
        let mut content = author_name.clone();
        content.append(": ");
        content.append(new_content.as_str());
        Ok(EditStep::EditThread { thread_chan, thread_msg, content })
    } else {
        let dm_chan = crate::idcodec::db_to_id(row.dm.channel);
        let dm_msg = crate::idcodec::db_to_id(row.dm.message);
        Ok(EditStep::EditDm { dm_chan, dm_msg, content: new_content.clone() })
    }
}

} // verus!
