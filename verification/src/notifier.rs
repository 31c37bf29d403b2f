//! The reconciliation engine: classify the observed channel, then
//! plan the gateway actions for a trigger.
//!
//! The engine never touches the network. It takes the observed
//! message list (newest first, as the platform returns it) and the
//! clock as plain values, and returns the exact sequence of gateway
//! actions to perform. A ghost channel model (`apply_actions`) states
//! what executing those actions does to the channel, and the laws at
//! the end of the module are proved against it.

use crate::config::BotConfig;
use crate::messages_generator::MessageManager;
use crate::messages_generator::spec_info;
use crate::messages_generator::spec_notify_msg;
use crate::window::clock_in_range;
use vstd::prelude::*;

verus! {

/// A bot-observed channel message. Observation lists are newest
/// first; the engine inspects only `author_id` and position.
pub struct Message {
    pub id: u64,
    pub author_id: u64,
    pub content: String,
}

/// The mathematical model of a message: content as a char sequence.
pub struct MsgModel {
    pub id: u64,
    pub author_id: u64,
    pub content: Seq<char>,
}

impl View for Message {
    type V = MsgModel;

    open spec fn view(&self) -> MsgModel {
        MsgModel { id: self.id, author_id: self.author_id, content: self.content@ }
    }
}

pub open spec fn msgs_view(ms: Seq<Message>) -> Seq<MsgModel> {
    ms.map_values(|m: Message| m@)
}

/// The state derived from the observed channel contents.
#[derive(Clone, Copy, Debug, PartialEq, Eq, Structural)]
pub enum ChannelState {
    Uninitialized,
    NonNotified,
    Notified,
}

/// The three scheduled trigger kinds.
#[derive(Clone, Copy, Debug, PartialEq, Eq, Structural)]
pub enum Trigger {
    Refresh,
    Notify,
    End,
}

/// One gateway operation. `ping_role` on a send is the
/// allowed-mentions control: only a `Some` role is actually pinged,
/// whatever role tokens the text contains.
pub enum Action {
    Delete { message_id: u64 },
    Edit { message_id: u64, body: String },
    Send { body: String, ping_role: Option<u64> },
}

/// The mathematical model of an action.
pub enum ActionModel {
    Delete { message_id: u64 },
    Edit { message_id: u64, body: Seq<char> },
    Send { body: Seq<char>, ping_role: Option<u64> },
}

impl View for Action {
    type V = ActionModel;

    open spec fn view(&self) -> ActionModel {
        match self {
            Action::Delete { message_id } => ActionModel::Delete { message_id: *message_id },
            Action::Edit { message_id, body } => ActionModel::Edit {
                message_id: *message_id,
                body: body@,
            },
            Action::Send { body, ping_role } => ActionModel::Send {
                body: body@,
                ping_role: *ping_role,
            },
        }
    }
}

pub open spec fn acts_view(acts: Seq<Action>) -> Seq<ActionModel> {
    acts.map_values(|a: Action| a@)
}

/// Every observed message was authored by the bot.
pub open spec fn all_bot(ms: Seq<MsgModel>, bot_uid: u64) -> bool {
    forall|i: int| 0 <= i < ms.len() ==> (#[trigger] ms[i]).author_id == bot_uid
}

/// The classifier: one or two bot-authored messages are the
/// maintained shapes; anything else is a clean slate.
pub open spec fn spec_classify(ms: Seq<MsgModel>, bot_uid: u64) -> ChannelState {
    if ms.len() != 1 && ms.len() != 2 {
        ChannelState::Uninitialized
    } else if !all_bot(ms, bot_uid) {
        ChannelState::Uninitialized
    } else if ms.len() == 1 {
        ChannelState::NonNotified
    } else {
        ChannelState::Notified
    }
}

/// One delete per observed message, in observation order.
pub open spec fn spec_delete_all(ms: Seq<MsgModel>) -> Seq<ActionModel> {
    ms.map_values(|m: MsgModel| ActionModel::Delete { message_id: m.id })
}

/// The reconciliation table: the actions for a trigger given the
/// observed channel. In the `Notified` state the observation is read
/// as `[notify, info]`, newest first.
pub open spec fn spec_reconcile(
    t: Trigger,
    ms: Seq<MsgModel>,
    bot_uid: u64,
    cfg: BotConfig,
    now: int,
) -> Seq<ActionModel> {
    let info = ActionModel::Send { body: spec_info(cfg, now), ping_role: None };
    let notify = ActionModel::Send {
        body: spec_notify_msg(cfg.role_id),
        ping_role: Some(cfg.role_id),
    };
    match spec_classify(ms, bot_uid) {
        ChannelState::Uninitialized => match t {
            Trigger::Refresh => spec_delete_all(ms) + seq![info],
            Trigger::Notify => spec_delete_all(ms) + seq![info, notify],
            Trigger::End => spec_delete_all(ms) + seq![info],
        },
        ChannelState::NonNotified => match t {
            Trigger::Refresh => seq![
                ActionModel::Edit { message_id: ms[0].id, body: spec_info(cfg, now) },
            ],
            Trigger::Notify => seq![notify],
            Trigger::End => seq![],
        },
        ChannelState::Notified => match t {
            Trigger::Refresh => seq![
                ActionModel::Edit { message_id: ms[1].id, body: spec_info(cfg, now) },
            ],
            Trigger::Notify => seq![],
            Trigger::End => seq![ActionModel::Delete { message_id: ms[0].id }],
        },
    }
}

/// The reconciler: holds the renderer, the configuration and the bot
/// identity learned at connection ready.
pub struct Notifier {
    pub msg_manager: MessageManager,
    pub config: BotConfig,
    pub bot_uid: u64,
}

impl Notifier {
    pub open spec fn wf(self) -> bool {
        self.msg_manager.config == self.config && self.config.hours_in_range()
    }

    pub fn new(bot_uid: u64, msg_manager: MessageManager, config: BotConfig) -> (n: Notifier)
        ensures
            n == (Notifier { msg_manager, config, bot_uid }),
    {
        Notifier { msg_manager, config, bot_uid }
    }

    /// The identifier of the target channel.
    pub fn channel(&self) -> (r: u64)
        ensures
            r == self.config.channel_id,
    {
        self.config.channel_id
    }

    /// Classifies an observed message list.
    pub fn state(&self, messages: &Vec<Message>) -> (s: ChannelState)
        ensures
            s == spec_classify(msgs_view(messages@), self.bot_uid),
    {
        let n = messages.len();
        if n != 1 && n != 2 {
            return ChannelState::Uninitialized;
        }
        let mut i: usize = 0;
        while i < n
            invariant
                0 <= i <= n,
                n == messages@.len(),
                forall|j: int| 0 <= j < i ==> msgs_view(messages@)[j].author_id == self.bot_uid,
            decreases n - i,
        {
            if messages[i].author_id != self.bot_uid {
                proof {
                    assert(msgs_view(messages@)[i as int].author_id != self.bot_uid);
                }
                return ChannelState::Uninitialized;
            }
            i = i + 1;
        }
        proof {
            assert(all_bot(msgs_view(messages@), self.bot_uid));
        }
        if n == 1 {
            ChannelState::NonNotified
        } else {
            ChannelState::Notified
        }
    }

    /// Plans the actions for one trigger against one observation.
    pub fn reconcile(&self, trigger: Trigger, messages: &Vec<Message>, now: u64) -> (acts: Vec<
        Action,
    >)
        requires
            self.wf(),
            clock_in_range(now),
        ensures
            acts_view(acts@) == spec_reconcile(
                trigger,
                msgs_view(messages@),
                self.bot_uid,
                self.config,
                now as int,
            ),
    {
        let ghost ms = msgs_view(messages@);
        let st = self.state(messages);
        let mut acts: Vec<Action> = Vec::new();
        match st {
            ChannelState::Uninitialized => {
                let mut i: usize = 0;
                while i < messages.len()
                    invariant
                        0 <= i <= messages@.len(),
                        ms == msgs_view(messages@),
                        acts@.len() == i,
                        forall|j: int|
                            0 <= j < i ==> acts_view(acts@)[j] == spec_delete_all(ms)[j],
                    decreases messages@.len() - i,
                {
                    acts.push(Action::Delete { message_id: messages[i].id });
                    i = i + 1;
                }
                proof {
                    assert(acts_view(acts@) =~= spec_delete_all(ms));
                }
                match trigger {
                    Trigger::Refresh => {
                        acts.push(
                            Action::Send {
                                body: self.msg_manager.info_str(now),
                                ping_role: None,
                            },
                        );
                    },
                    Trigger::Notify => {
                        acts.push(
                            Action::Send {
                                body: self.msg_manager.info_str(now),
                                ping_role: None,
                            },
                        );
                        acts.push(
                            Action::Send {
                                body: self.msg_manager.notify_str(),
                                ping_role: Some(self.config.role_id),
                            },
                        );
                    },
                    Trigger::End => {
                        acts.push(
                            Action::Send {
                                body: self.msg_manager.info_str(now),
                                ping_role: None,
                            },
                        );
                    },
                }
            },
            ChannelState::NonNotified => {
                match trigger {
                    Trigger::Refresh => {
                        acts.push(
                            Action::Edit {
                                message_id: messages[0].id,
                                body: self.msg_manager.info_str(now),
                            },
                        );
                    },
                    Trigger::Notify => {
                        acts.push(
                            Action::Send {
                                body: self.msg_manager.notify_str(),
                                ping_role: Some(self.config.role_id),
                            },
                        );
                    },
                    Trigger::End => {},
                }
            },
            ChannelState::Notified => {
                match trigger {
                    Trigger::Refresh => {
                        acts.push(
                            Action::Edit {
                                message_id: messages[1].id,
                                body: self.msg_manager.info_str(now),
                            },
                        );
                    },
                    Trigger::Notify => {},
                    Trigger::End => {
                        acts.push(Action::Delete { message_id: messages[0].id });
                    },
                }
            },
        }
        proof {
            assert(acts_view(acts@) =~= spec_reconcile(
                trigger,
                ms,
                self.bot_uid,
                self.config,
                now as int,
            ));
        }
        acts
    }

    /// The refresh trigger: keep the info message current.
    pub fn update_time(&self, messages: &Vec<Message>, now: u64) -> (acts: Vec<Action>)
        requires
            self.wf(),
            clock_in_range(now),
        ensures
            acts_view(acts@) == spec_reconcile(
                Trigger::Refresh,
                msgs_view(messages@),
                self.bot_uid,
                self.config,
                now as int,
            ),
    {
        self.reconcile(Trigger::Refresh, messages, now)
    }

    /// The notify trigger: announce the window with a real role ping.
    pub fn notify(&self, messages: &Vec<Message>, now: u64) -> (acts: Vec<Action>)
        requires
            self.wf(),
            clock_in_range(now),
        ensures
            acts_view(acts@) == spec_reconcile(
                Trigger::Notify,
                msgs_view(messages@),
                self.bot_uid,
                self.config,
                now as int,
            ),
    {
        self.reconcile(Trigger::Notify, messages, now)
    }

    /// The end trigger: take the announcement down.
    pub fn unnotify(&self, messages: &Vec<Message>, now: u64) -> (acts: Vec<Action>)
        requires
            self.wf(),
            clock_in_range(now),
        ensures
            acts_view(acts@) == spec_reconcile(
                Trigger::End,
                msgs_view(messages@),
                self.bot_uid,
                self.config,
                now as int,
            ),
    {
        self.reconcile(Trigger::End, messages, now)
    }
}

// ------------------------------------------------------------------
// The channel model: what executing a plan does to the channel.
// ------------------------------------------------------------------
/// The channel after deleting the message with `id`.
pub open spec fn remove_id(ch: Seq<MsgModel>, id: u64) -> Seq<MsgModel>
    decreases ch.len(),
{
    if ch.len() == 0 {
        Seq::empty()
    } else if ch[0].id == id {
        remove_id(ch.skip(1), id)
    } else {
        seq![ch[0]] + remove_id(ch.skip(1), id)
    }
}

/// The channel after one gateway operation. A send prepends (the
/// platform lists newest first) a message whose identifier `fresh_id`
/// the platform chooses and whose author is the bot itself.
pub open spec fn apply_action(
    ch: Seq<MsgModel>,
    a: ActionModel,
    bot_uid: u64,
    fresh_id: u64,
) -> Seq<MsgModel> {
    match a {
        ActionModel::Delete { message_id } => remove_id(ch, message_id),
        ActionModel::Edit { message_id, body } => ch.map_values(
            |m: MsgModel|
                if m.id == message_id {
                    MsgModel { id: m.id, author_id: m.author_id, content: body }
                } else {
                    m
                },
        ),
        ActionModel::Send { body, ping_role } => seq![
            MsgModel { id: fresh_id, author_id: bot_uid, content: body },
        ] + ch,
    }
}

/// The channel after a whole plan, executed in order; each send
/// consumes the next platform-chosen identifier from `fresh_ids`.
pub open spec fn apply_actions(
    ch: Seq<MsgModel>,
    acts: Seq<ActionModel>,
    bot_uid: u64,
    fresh_ids: Seq<u64>,
) -> Seq<MsgModel>
    decreases acts.len(),
{
    if acts.len() == 0 {
        ch
    } else {
        let ch1 = apply_action(ch, acts[0], bot_uid, fresh_ids[0]);
        let rest_fresh = if acts[0] is Send {
            fresh_ids.skip(1)
        } else {
            fresh_ids
        };
        apply_actions(ch1, acts.skip(1), bot_uid, rest_fresh)
    }
}

/// No two observed messages share an identifier.
pub open spec fn distinct_ids(ms: Seq<MsgModel>) -> bool {
    forall|i: int, j: int| 0 <= i < j < ms.len() ==> ms[i].id != ms[j].id
}

/// Some observed message carries the identifier `id`.
pub open spec fn id_in(ms: Seq<MsgModel>, id: u64) -> bool {
    exists|j: int| 0 <= j < ms.len() && ms[j].id == id
}

// ------------------------------------------------------------------
// Laws.
// ------------------------------------------------------------------
/// Law: classifier totality. Every possible observation list maps to
/// exactly one of the three states, and the three are characterized
/// exactly: one bot-authored message is `NonNotified`, two are
/// `Notified`, everything else is `Uninitialized`.
pub proof fn lemma_classifier_total(ms: Seq<MsgModel>, bot_uid: u64)
    ensures
        spec_classify(ms, bot_uid) is Uninitialized || spec_classify(ms, bot_uid) is NonNotified
            || spec_classify(ms, bot_uid) is Notified,
        spec_classify(ms, bot_uid) is NonNotified <==> ms.len() == 1 && all_bot(ms, bot_uid),
        spec_classify(ms, bot_uid) is Notified <==> ms.len() == 2 && all_bot(ms, bot_uid),
        spec_classify(ms, bot_uid) is Uninitialized <==> !(ms.len() == 1 || ms.len() == 2)
            || !all_bot(ms, bot_uid),
{
}

/// Law: role mention safety. In every plan, only a send of the
/// explicit notify body carries an enabled role ping, and only the
/// notify trigger ever produces one; info sends and edits never ping.
pub proof fn lemma_role_mention_safety(
    t: Trigger,
    ms: Seq<MsgModel>,
    bot_uid: u64,
    cfg: BotConfig,
    now: int,
)
    ensures
        forall|i: int|
            0 <= i < spec_reconcile(t, ms, bot_uid, cfg, now).len() ==> match #[trigger] spec_reconcile(
                t,
                ms,
                bot_uid,
                cfg,
                now,
            )[i] {
                ActionModel::Send { body, ping_role } => ping_role matches Some(r) ==> r
                    == cfg.role_id && body == spec_notify_msg(cfg.role_id) && t is Notify,
                ActionModel::Edit { message_id, body } => true,
                ActionModel::Delete { message_id } => true,
            },
{
    let acts = spec_reconcile(t, ms, bot_uid, cfg, now);
    assert forall|i: int| 0 <= i < acts.len() implies match #[trigger] acts[i] {
        ActionModel::Send { body, ping_role } => ping_role matches Some(r) ==> r == cfg.role_id
            && body == spec_notify_msg(cfg.role_id) && t is Notify,
        ActionModel::Edit { message_id, body } => true,
        ActionModel::Delete { message_id } => true,
    } by {
        if spec_classify(ms, bot_uid) is Uninitialized {
            if i < ms.len() {
                assert(acts[i] == spec_delete_all(ms)[i]);
            }
        }
    }
}

proof fn lemma_remove_id_elems(ch: Seq<MsgModel>, id: u64)
    ensures
        forall|i: int|
            0 <= i < remove_id(ch, id).len() ==> (#[trigger] remove_id(ch, id)[i]).id != id
                && id_in(ch, remove_id(ch, id)[i].id),
        forall|i: int|
            0 <= i < remove_id(ch, id).len() ==> (exists|j: int|
                0 <= j < ch.len() && ch[j] == #[trigger] remove_id(ch, id)[i]),
    decreases ch.len(),
{
    if ch.len() == 0 {
    } else {
        lemma_remove_id_elems(ch.skip(1), id);
        assert forall|i: int| 0 <= i < remove_id(ch, id).len() implies (#[trigger] remove_id(
            ch,
            id,
        )[i]).id != id && id_in(ch, remove_id(ch, id)[i].id) && (exists|j: int|
            0 <= j < ch.len() && ch[j] == remove_id(ch, id)[i]) by {
            if ch[0].id == id {
                assert(remove_id(ch, id)[i] == remove_id(ch.skip(1), id)[i]);
                let j = choose|j: int|
                    0 <= j < ch.skip(1).len() && ch.skip(1)[j] == remove_id(ch.skip(1), id)[i];
                assert(ch[j + 1] == remove_id(ch, id)[i]);
            } else {
                if i == 0 {
                    assert(remove_id(ch, id)[0] == ch[0]);
                } else {
                    assert(remove_id(ch, id)[i] == remove_id(ch.skip(1), id)[i - 1]);
                    let j = choose|j: int|
                        0 <= j < ch.skip(1).len() && ch.skip(1)[j] == remove_id(ch.skip(1), id)[i
                            - 1];
                    assert(ch[j + 1] == remove_id(ch, id)[i]);
                }
            }
        }
    }
}

/// Deleting, in order, the identifier of every message of `ms` from a
/// channel whose messages all carry identifiers of `ms` empties it.
proof fn lemma_delete_all_clears(
    ch: Seq<MsgModel>,
    ms: Seq<MsgModel>,
    bot_uid: u64,
    fresh_ids: Seq<u64>,
)
    requires
        forall|i: int| 0 <= i < ch.len() ==> id_in(ms, (#[trigger] ch[i]).id),
    ensures
        apply_actions(ch, spec_delete_all(ms), bot_uid, fresh_ids) == Seq::<MsgModel>::empty(),
    decreases ms.len(),
{
    if ms.len() == 0 {
        if ch.len() > 0 {
            assert(id_in(ms, ch[0].id));
        }
        assert(ch =~= Seq::<MsgModel>::empty());
    } else {
        let ch1 = remove_id(ch, ms[0].id);
        lemma_remove_id_elems(ch, ms[0].id);
        assert forall|i: int| 0 <= i < ch1.len() implies id_in(ms.skip(1), (#[trigger] ch1[i]).id) by {
            let id = ch1[i].id;
            let j = choose|j: int| 0 <= j < ms.len() && ms[j].id == id;
            assert(ms.skip(1)[j - 1].id == id);
        }
        assert(spec_delete_all(ms)[0] == (ActionModel::Delete { message_id: ms[0].id }));
        assert(spec_delete_all(ms).skip(1) =~= spec_delete_all(ms.skip(1)));
        lemma_delete_all_clears(ch1, ms.skip(1), bot_uid, fresh_ids);
    }
}

/// A message the bot sent, under the identifier the platform chose.
pub open spec fn sent_msg(id: u64, bot_uid: u64, body: Seq<char>) -> MsgModel {
    MsgModel { id, author_id: bot_uid, content: body }
}

/// The exact channel each (trigger, state) pair leaves behind: the
/// reconciliation table read at channel level, newest first.
/// `fresh_ids` are the identifiers the platform assigns to sent
/// messages, in send order.
pub open spec fn spec_channel_after(
    t: Trigger,
    ch: Seq<MsgModel>,
    bot_uid: u64,
    cfg: BotConfig,
    now: int,
    fresh_ids: Seq<u64>,
) -> Seq<MsgModel> {
    let info = spec_info(cfg, now);
    let notify = spec_notify_msg(cfg.role_id);
    match spec_classify(ch, bot_uid) {
        ChannelState::Uninitialized => match t {
            Trigger::Refresh => seq![sent_msg(fresh_ids[0], bot_uid, info)],
            Trigger::Notify => seq![
                sent_msg(fresh_ids[1], bot_uid, notify),
                sent_msg(fresh_ids[0], bot_uid, info),
            ],
            Trigger::End => seq![sent_msg(fresh_ids[0], bot_uid, info)],
        },
        ChannelState::NonNotified => match t {
            Trigger::Refresh => seq![
                MsgModel { id: ch[0].id, author_id: ch[0].author_id, content: info },
            ],
            Trigger::Notify => seq![sent_msg(fresh_ids[0], bot_uid, notify), ch[0]],
            Trigger::End => ch,
        },
        ChannelState::Notified => match t {
            Trigger::Refresh => seq![
                ch[0],
                MsgModel { id: ch[1].id, author_id: ch[1].author_id, content: info },
            ],
            Trigger::Notify => ch,
            Trigger::End => seq![ch[1]],
        },
    }
}

/// Law: reconciler convergence. Whatever identifiers the platform
/// assigns to the sent messages, one successful reconciliation leaves
/// exactly the channel `spec_channel_after` gives: after a notify
/// from `Uninitialized` or `NonNotified` the two messages
/// `[notify, info]` newest first; after an end from `Notified` the
/// single remaining info message, unedited; after a refresh an info
/// message carrying the current info body. In every case the channel
/// is entirely bot-authored, with two messages after a notify trigger
/// or a refresh in the `Notified` state and one message otherwise.
pub proof fn lemma_reconciler_convergence(
    t: Trigger,
    ch: Seq<MsgModel>,
    bot_uid: u64,
    cfg: BotConfig,
    now: int,
    fresh_ids: Seq<u64>,
)
    requires
        distinct_ids(ch),
        fresh_ids.len() >= 2,
    ensures
        ({
            let after = apply_actions(ch, spec_reconcile(t, ch, bot_uid, cfg, now), bot_uid,
                fresh_ids);
            &&& after == spec_channel_after(t, ch, bot_uid, cfg, now, fresh_ids)
            &&& all_bot(after, bot_uid)
            &&& after.len() == (if t is Notify || (t is Refresh && spec_classify(ch, bot_uid)
                is Notified) {
                2int
            } else {
                1int
            })
        }),
{
    reveal_with_fuel(apply_actions, 4);
    reveal_with_fuel(remove_id, 4);
    let acts = spec_reconcile(t, ch, bot_uid, cfg, now);
    let after = apply_actions(ch, acts, bot_uid, fresh_ids);
    let info = spec_info(cfg, now);
    let notify = spec_notify_msg(cfg.role_id);
    match spec_classify(ch, bot_uid) {
        ChannelState::Uninitialized => {
            let deletes = spec_delete_all(ch);
            match t {
                Trigger::Refresh | Trigger::End => {
                    let send_info = ActionModel::Send { body: info, ping_role: None };
                    assert(acts =~= deletes + seq![send_info]);
                    lemma_apply_split_sends(ch, deletes, seq![send_info], bot_uid, fresh_ids);
                    lemma_delete_all_clears(ch, ch, bot_uid, fresh_ids);
                    assert(after =~= seq![sent_msg(fresh_ids[0], bot_uid, info)]);
                },
                Trigger::Notify => {
                    let send_info = ActionModel::Send { body: info, ping_role: None };
                    let send_notify = ActionModel::Send {
                        body: notify,
                        ping_role: Some(cfg.role_id),
                    };
                    assert(acts =~= deletes + seq![send_info, send_notify]);
                    lemma_apply_split_sends(ch, deletes, seq![send_info, send_notify], bot_uid,
                        fresh_ids);
                    lemma_delete_all_clears(ch, ch, bot_uid, fresh_ids);
                    assert(after =~= seq![
                        sent_msg(fresh_ids[1], bot_uid, notify),
                        sent_msg(fresh_ids[0], bot_uid, info),
                    ]);
                },
            }
        },
        ChannelState::NonNotified => {
            match t {
                Trigger::Refresh => {
                    assert(after =~= seq![
                        MsgModel { id: ch[0].id, author_id: ch[0].author_id, content: info },
                    ]);
                },
                Trigger::Notify => {
                    assert(after =~= seq![sent_msg(fresh_ids[0], bot_uid, notify), ch[0]]);
                },
                Trigger::End => {},
            }
        },
        ChannelState::Notified => {
            match t {
                Trigger::Refresh => {
                    assert(ch[0].id != ch[1].id);
                    assert(after =~= seq![
                        ch[0],
                        MsgModel { id: ch[1].id, author_id: ch[1].author_id, content: info },
                    ]);
                },
                Trigger::Notify => {},
                Trigger::End => {
                    assert(ch[0].id != ch[1].id);
                    assert(ch.skip(1) =~= seq![ch[1]]);
                    assert(after =~= seq![ch[1]]);
                },
            }
        },
    }
}

/// Applying a plan that is deletes followed by sends applies the
/// deletes, then the sends, with the identifier supply untouched by
/// the deletes.
proof fn lemma_apply_split_sends(
    ch: Seq<MsgModel>,
    dels: Seq<ActionModel>,
    sends: Seq<ActionModel>,
    bot_uid: u64,
    fresh_ids: Seq<u64>,
)
    requires
        forall|i: int| 0 <= i < dels.len() ==> (#[trigger] dels[i]) is Delete,
    ensures
        apply_actions(ch, dels + sends, bot_uid, fresh_ids) == apply_actions(
            apply_actions(ch, dels, bot_uid, fresh_ids),
            sends,
            bot_uid,
            fresh_ids,
        ),
    decreases dels.len(),
{
    if dels.len() == 0 {
        assert(dels + sends =~= sends);
    } else {
        let all = dels + sends;
        assert(all[0] == dels[0]);
        let ch1 = apply_action(ch, dels[0], bot_uid, fresh_ids[0]);
        assert(all.skip(1) =~= dels.skip(1) + sends);
        lemma_apply_split_sends(ch1, dels.skip(1), sends, bot_uid, fresh_ids);
    }
}

/// Law: idempotence of refresh from `NonNotified`. A second refresh
/// reconciliation at the same clock, observing what the first one
/// produced, changes nothing.
pub proof fn lemma_refresh_idempotent(
    ch: Seq<MsgModel>,
    bot_uid: u64,
    cfg: BotConfig,
    now: int,
    fresh1: Seq<u64>,
    fresh2: Seq<u64>,
)
    requires
        spec_classify(ch, bot_uid) is NonNotified,
    ensures
        ({
            let once = apply_actions(ch, spec_reconcile(Trigger::Refresh, ch, bot_uid, cfg, now),
                bot_uid, fresh1);
            let twice = apply_actions(once, spec_reconcile(Trigger::Refresh, once, bot_uid, cfg,
                now), bot_uid, fresh2);
            &&& spec_classify(once, bot_uid) is NonNotified
            &&& twice == once
        }),
{
    reveal_with_fuel(apply_actions, 3);
    let once = apply_actions(ch, spec_reconcile(Trigger::Refresh, ch, bot_uid, cfg, now), bot_uid,
        fresh1);
    let edited = MsgModel { id: ch[0].id, author_id: ch[0].author_id, content: spec_info(cfg, now) };
    assert(once =~= seq![edited]);
    let twice = apply_actions(once, spec_reconcile(Trigger::Refresh, once, bot_uid, cfg, now),
        bot_uid, fresh2);
    assert(twice =~= once);
}

} // verus!
