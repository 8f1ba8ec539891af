use vstd::prelude::*;
use vstd::string::*;
use crate::config::{ModelConfig, is_default_config};
use crate::error::{ChatError, ErrorKind, ErrorView};
use crate::message::{Message, MessageView, RoleView, message_of, messages_view};
use crate::stream::{ChatRespStream, LiveItem};

verus! {

/// Whether a session may start a turn.
#[derive(PartialEq, Eq, Structural, Clone, Copy, Debug)]
pub enum SessionStatus {
    /// No turn is in flight.
    Usable,
    /// A turn is in flight.
    Busy,
    /// A turn is in flight and its reply is to be discarded.
    CancelRequested,
}

/// The integer code of a status: 1 usable, 2 busy, 3 cancel requested.
pub open spec fn status_code(s: SessionStatus) -> i8 {
    match s {
        SessionStatus::Usable => 1,
        SessionStatus::Busy => 2,
        SessionStatus::CancelRequested => 3,
    }
}

/// What a turn acts on: the session's status and history, and the reply so far.
pub struct Turn {
    pub status: SessionStatus,
    pub history: Seq<MessageView>,
    pub reply: Seq<char>,
}

/// One item pulled from a backend's response, as a mathematical value.
pub type ItemView = Result<MessageView, ErrorView>;

pub open spec fn item_view(r: Result<Message, ChatError>) -> ItemView {
    match r {
        Ok(m) => Ok(m@),
        Err(e) => Err(e@),
    }
}

pub open spec fn items_view(v: Seq<Result<Message, ChatError>>) -> Seq<ItemView> {
    v.map_values(|r: Result<Message, ChatError>| item_view(r))
}

/// What happens to a turn, in the order the watcher sees it.
pub enum TurnEvent {
    /// An item arrives from the backend.
    Item(ItemView),
    /// A caller asks that the reply be discarded.
    Cancel,
}

/// An error, or an empty fragment, ends a turn.
pub open spec fn ends_turn(item: ItemView) -> bool {
    match item {
        Ok(m) => m.content.len() == 0,
        Err(_) => true,
    }
}

/// The history without its most recent entry.
pub open spec fn rollback(h: Seq<MessageView>) -> Seq<MessageView> {
    if h.len() > 0 {
        h.drop_last()
    } else {
        h
    }
}

/// The state after a turn is accepted for `query`.
pub open spec fn accepted(history: Seq<MessageView>, query: Seq<char>) -> Turn {
    Turn {
        status: SessionStatus::Busy,
        history: history.push(message_of(RoleView::User, query)),
        reply: Seq::empty(),
    }
}

/// What the watcher does with one item of a turn in flight.
pub open spec fn step(t: Turn, item: ItemView) -> Turn {
    match item {
        Err(_) => Turn { status: SessionStatus::Usable, history: rollback(t.history), reply: t.reply },
        Ok(m) => if m.content.len() == 0 {
            if t.status == SessionStatus::CancelRequested {
                Turn { status: SessionStatus::Usable, history: rollback(t.history), reply: t.reply }
            } else {
                Turn {
                    status: SessionStatus::Usable,
                    history: t.history.push(message_of(RoleView::Assistant, t.reply)),
                    reply: t.reply,
                }
            }
        } else {
            Turn { status: t.status, history: t.history, reply: t.reply + m.content }
        },
    }
}

/// A cancel request marks a busy turn; otherwise it changes nothing.
pub open spec fn cancel(t: Turn) -> Turn {
    if t.status == SessionStatus::Busy {
        Turn { status: SessionStatus::CancelRequested, history: t.history, reply: t.reply }
    } else {
        t
    }
}

/// The state after the events of a turn, up to the item that ends it.
pub open spec fn run(t: Turn, events: Seq<TurnEvent>) -> Turn
    decreases events.len(),
{
    if events.len() == 0 {
        t
    } else {
        match events[0] {
            TurnEvent::Cancel => run(cancel(t), events.drop_first()),
            TurnEvent::Item(i) => if ends_turn(i) {
                step(t, i)
            } else {
                run(step(t, i), events.drop_first())
            },
        }
    }
}

/// The live-view item that the watcher forwards for a backend item.
pub open spec fn forwarded(item: ItemView) -> LiveItem {
    match item {
        Ok(m) => Ok(m.content),
        Err(e) => Err(e),
    }
}

/// What the live view receives over the events of a turn, up to the item that
/// ends it: every item is forwarded, whatever the status of the session.
pub open spec fn run_live(events: Seq<TurnEvent>) -> Seq<LiveItem>
    decreases events.len(),
{
    if events.len() == 0 {
        Seq::empty()
    } else {
        match events[0] {
            TurnEvent::Cancel => run_live(events.drop_first()),
            TurnEvent::Item(i) => if ends_turn(i) {
                seq![forwarded(i)]
            } else {
                seq![forwarded(i)] + run_live(events.drop_first())
            },
        }
    }
}

/// The messages sent to the backend for a turn: the system prompt if there is
/// one, then the `max_history` most recent entries oldest first, then the query.
pub open spec fn prompt_window(
    history: Seq<MessageView>,
    max_history: nat,
    prompt: Seq<char>,
    query: Seq<char>,
) -> Seq<MessageView> {
    let keep = if history.len() < max_history { history.len() } else { max_history };
    let head = if prompt.len() == 0 {
        Seq::<MessageView>::empty()
    } else {
        seq![message_of(RoleView::System, prompt)]
    };
    head + history.subrange(history.len() - keep, history.len() as int) + seq![
        message_of(RoleView::User, query),
    ]
}

/// A conversation with one backend: its history, settings and turn status.
#[derive(Debug)]
pub struct SingleAgent {
    status: SessionStatus,
    prompt: String,
    model_config: ModelConfig,
    history: Vec<Message>,
    max_history: usize,
}

impl SingleAgent {
    pub closed spec fn status_view(&self) -> SessionStatus {
        self.status
    }

    pub closed spec fn history_view(&self) -> Seq<MessageView> {
        messages_view(self.history@)
    }

    pub closed spec fn prompt_view(&self) -> Seq<char> {
        self.prompt@
    }

    pub closed spec fn max_history_view(&self) -> nat {
        self.max_history as nat
    }

    pub closed spec fn config_view(&self) -> ModelConfig {
        self.model_config
    }

    /// The settings that a turn leaves as they are.
    pub open spec fn same_settings(&self, other: &SingleAgent) -> bool {
        self.prompt_view() == other.prompt_view() && self.max_history_view() == other.max_history_view()
            && self.config_view() == other.config_view()
    }

    pub open spec fn turn_view(&self, reply: Seq<char>) -> Turn {
        Turn { status: self.status_view(), history: self.history_view(), reply }
    }

    /// A usable session with no prompt, the default settings, an empty history
    /// and a window of 30 messages.
    pub fn new() -> (r: SingleAgent)
        ensures
            r.status_view() == SessionStatus::Usable,
            r.prompt_view() == Seq::<char>::empty(),
            r.history_view() == Seq::<MessageView>::empty(),
            r.max_history_view() == 30,
            is_default_config(r.config_view()),
    {
        let r = SingleAgent {
            status: SessionStatus::Usable,
            prompt: String::new(),
            model_config: ModelConfig::default(),
            history: Vec::new(),
            max_history: 30,
        };
        assert(r.history_view() =~= Seq::<MessageView>::empty());
        r
    }

    /// This session with `msg_list` as its history.
    pub fn cove_chat_history(self, msg_list: Vec<Message>) -> (r: SingleAgent)
        ensures
            r.history_view() == messages_view(msg_list@),
            r.status_view() == self.status_view(),
            r.same_settings(&self),
    {
        SingleAgent { history: msg_list, ..self }
    }

    pub fn set_prompt(self, prompt: String) -> (r: SingleAgent)
        ensures
            r.prompt_view() == prompt@,
            r.history_view() == self.history_view(),
            r.status_view() == self.status_view(),
            r.max_history_view() == self.max_history_view(),
            r.config_view() == self.config_view(),
    {
        SingleAgent { prompt, ..self }
    }

    pub fn set_max_history(self, max: usize) -> (r: SingleAgent)
        ensures
            r.max_history_view() == max,
            r.history_view() == self.history_view(),
            r.status_view() == self.status_view(),
            r.prompt_view() == self.prompt_view(),
            r.config_view() == self.config_view(),
    {
        SingleAgent { max_history: max, ..self }
    }

    pub fn cove_model_config(self, cfg: ModelConfig) -> (r: SingleAgent)
        ensures
            r.config_view() == cfg,
            r.history_view() == self.history_view(),
            r.status_view() == self.status_view(),
            r.prompt_view() == self.prompt_view(),
            r.max_history_view() == self.max_history_view(),
    {
        SingleAgent { model_config: cfg, ..self }
    }

    /// This session with its settings passed through `handle`.
    pub fn set_model_config<F: FnOnce(ModelConfig) -> ModelConfig>(self, handle: F) -> (r: SingleAgent)
        requires
            call_requires(handle, (self.config_view(),)),
        ensures
            call_ensures(handle, (self.config_view(),), r.config_view()),
            r.history_view() == self.history_view(),
            r.status_view() == self.status_view(),
            r.prompt_view() == self.prompt_view(),
            r.max_history_view() == self.max_history_view(),
    {
        let SingleAgent { status, prompt, model_config, history, max_history } = self;
        let model_config = handle(model_config);
        SingleAgent { status, prompt, model_config, history, max_history }
    }

    pub fn status_is_usable(&self) -> (r: bool)
        ensures
            r == (self.status_view() == SessionStatus::Usable),
    {
        self.status == SessionStatus::Usable
    }

    /// The status as an integer: 1 usable, 2 busy, 3 cancel requested.
    pub fn get_status(&self) -> (r: i8)
        ensures
            r == status_code(self.status_view()),
    {
        match self.status {
            SessionStatus::Usable => 1,
            SessionStatus::Busy => 2,
            SessionStatus::CancelRequested => 3,
        }
    }

    pub fn status(&self) -> (r: SessionStatus)
        ensures
            r == self.status_view(),
    {
        self.status
    }

    /// The history, oldest first.
    pub fn history(&self) -> (r: &Vec<Message>)
        ensures
            messages_view(r@) == self.history_view(),
    {
        &self.history
    }

    pub fn prompt(&self) -> (r: &String)
        ensures
            r@ == self.prompt_view(),
    {
        &self.prompt
    }

    pub fn max_history(&self) -> (r: usize)
        ensures
            r == self.max_history_view(),
    {
        self.max_history
    }

    pub fn model_config(&self) -> (r: &ModelConfig)
        ensures
            *r == self.config_view(),
    {
        &self.model_config
    }

    /// Empties the history, unless a turn is in flight.
    pub fn clear_chat_history(&mut self) -> (r: Result<(), ChatError>)
        ensures
            old(self).status_view() != SessionStatus::Usable <==> r is Err,
            r matches Err(e) ==> e.kind == ErrorKind::Busy,
            r is Err ==> final(self).history_view() == old(self).history_view(),
            r is Ok ==> final(self).history_view() == Seq::<MessageView>::empty(),
            final(self).status_view() == old(self).status_view(),
            final(self).same_settings(old(self)),
    {
        if self.status != SessionStatus::Usable {
            return Err(
                ChatError::new(
                    ErrorKind::Busy,
                    "SingleAgent.status check failed,please wait status usable".to_owned(),
                ),
            );
        }
        self.history = Vec::new();
        assert(self.history_view() =~= Seq::<MessageView>::empty());
        Ok(())
    }

    /// Checks that no turn is in flight, and builds the messages to send for `query`.
    pub fn prepare_chat(&self, query: &str) -> (r: Result<Vec<Message>, ChatError>)
        ensures
            self.status_view() != SessionStatus::Usable <==> r is Err,
            r matches Err(e) ==> e.kind == ErrorKind::Busy,
            r matches Ok(w) ==> messages_view(w@) == prompt_window(
                self.history_view(),
                self.max_history_view(),
                self.prompt_view(),
                query@,
            ),
    {
        if self.status != SessionStatus::Usable {
            return Err(
                ChatError::new(
                    ErrorKind::Busy,
                    "SingleAgent.status check failed,please wait status usable".to_owned(),
                ),
            );
        }
        let len = self.history.len();
        let keep = if len < self.max_history {
            len
        } else {
            self.max_history
        };
        let start = len - keep;
        let ghost hist = self.history_view();
        let ghost head = if self.prompt@.len() == 0 {
            Seq::<MessageView>::empty()
        } else {
            seq![message_of(RoleView::System, self.prompt@)]
        };
        let mut w: Vec<Message> = Vec::new();
        if !self.prompt.as_str().is_empty() {
            w.push(Message::new_system(self.prompt.clone()));
        }
        assert(messages_view(w@) =~= head);
        let mut i: usize = start;
        while i < len
            invariant
                start <= i <= len,
                len == self.history@.len(),
                hist == self.history_view(),
                messages_view(w@) =~= head + hist.subrange(start as int, i as int),
            decreases len - i,
        {
            let ghost prev = w@;
            let m = self.history[i].duplicate();
            assert(hist[i as int] == self.history@[i as int]@);
            w.push(m);
            assert(messages_view(w@) =~= messages_view(prev).push(m@));
            assert(hist.subrange(start as int, i + 1) =~= hist.subrange(start as int, i as int).push(hist[i as int]));
            i = i + 1;
        }
        let ghost prev = w@;
        let q = Message::new_user(query.to_owned());
        w.push(q);
        assert(messages_view(w@) =~= messages_view(prev).push(q@));
        assert(messages_view(w@) =~= prompt_window(hist, self.max_history as nat, self.prompt@, query@));
        Ok(w)
    }

    /// Starts a turn once the backend has taken the request: the session is
    /// busy and the query is the newest history entry.
    pub fn accept_turn(&mut self, query: String)
        requires
            old(self).status_view() == SessionStatus::Usable,
        ensures
            final(self).turn_view(Seq::empty()) == accepted(old(self).history_view(), query@),
            final(self).same_settings(old(self)),
    {
        self.status = SessionStatus::Busy;
        self.history.push(Message::new_user(query));
        assert(self.history_view() =~= old(self).history_view().push(message_of(RoleView::User, query@)));
    }

    /// Asks that the reply of the turn in flight be discarded; true when a busy turn was marked.
    pub fn request_cancel(&mut self) -> (r: bool)
        ensures
            forall|reply: Seq<char>| final(self).turn_view(reply) == cancel(old(self).turn_view(reply)),
            r == (old(self).status_view() == SessionStatus::Busy),
            final(self).same_settings(old(self)),
    {
        if self.status == SessionStatus::Busy {
            self.status = SessionStatus::CancelRequested;
            true
        } else {
            false
        }
    }

    /// Handles one item of the turn in flight: forwards it to the live view,
    /// extends the reply, and on the item that ends the turn commits the reply
    /// or rolls the query back and makes the session usable again. Returns
    /// whether more items are to be pulled.
    pub fn watch_step(
        &mut self,
        reply: &mut String,
        live: &mut ChatRespStream,
        item: Result<Message, ChatError>,
    ) -> (more: bool)
        requires
            old(self).status_view() != SessionStatus::Usable,
        ensures
            final(self).turn_view(final(reply)@) == step(old(self).turn_view(old(reply)@), item_view(item)),
            final(live)@ == old(live)@.push(forwarded(item_view(item))),
            more == !ends_turn(item_view(item)),
            final(self).same_settings(old(self)),
    {
        match item {
            Ok(m) => {
                let over = m.is_over();
                reply.append(m.content.as_str());
                live.push(m.content);
                if !over {
                    return true;
                }
                if self.status == SessionStatus::CancelRequested {
                    self.history.pop();
                } else {
                    self.history.push(Message::new_assistant(reply.clone()));
                }
                self.status = SessionStatus::Usable;
                assert(reply@ =~= old(reply)@);
                proof {
                    if old(self).status_view() == SessionStatus::CancelRequested {
                        if old(self).history@.len() > 0 {
                            assert(self.history_view() =~= old(self).history_view().drop_last());
                        } else {
                            assert(self.history_view() =~= old(self).history_view());
                        }
                    } else {
                        assert(self.history_view() =~= old(self).history_view().push(
                            message_of(RoleView::Assistant, reply@),
                        ));
                    }
                }
                false
            },
            Err(e) => {
                live.push_err(e);
                self.history.pop();
                self.status = SessionStatus::Usable;
                proof {
                    if old(self).history@.len() > 0 {
                        assert(self.history_view() =~= old(self).history_view().drop_last());
                    } else {
                        assert(self.history_view() =~= old(self).history_view());
                    }
                }
                false
            },
        }
    }
}

/// The events for fragments of reply text delivered in order.
pub open spec fn fragment_events(frags: Seq<Seq<char>>) -> Seq<TurnEvent> {
    frags.map_values(|f: Seq<char>| TurnEvent::Item(Ok(message_of(RoleView::Assistant, f))))
}

/// The live-view items for fragments of reply text, in order.
pub open spec fn live_fragments(frags: Seq<Seq<char>>) -> Seq<LiveItem> {
    frags.map_values(|f: Seq<char>| Ok::<Seq<char>, ErrorView>(f))
}

pub open spec fn all_nonempty(frags: Seq<Seq<char>>) -> bool {
    forall|i: int| 0 <= i < frags.len() ==> #[trigger] frags[i].len() > 0
}

/// Fragments extend the reply and leave status and history alone.
proof fn lemma_fragments(t: Turn, frags: Seq<Seq<char>>, tail: Seq<TurnEvent>)
    requires
        all_nonempty(frags),
    ensures
        run(t, fragment_events(frags) + tail) == run(
            Turn { status: t.status, history: t.history, reply: t.reply + frags.flatten() },
            tail,
        ),
        run_live(fragment_events(frags) + tail) == live_fragments(frags) + run_live(tail),
    decreases frags.len(),
{
    if frags.len() == 0 {
        assert(fragment_events(frags) + tail =~= tail);
        assert(live_fragments(frags) + run_live(tail) =~= run_live(tail));
        assert(t.reply + frags.flatten() =~= t.reply);
    } else {
        let evs = fragment_events(frags) + tail;
        let first = message_of(RoleView::Assistant, frags[0]);
        assert(frags[0].len() > 0);
        assert(evs[0] == TurnEvent::Item(Ok(first)));
        assert(evs.drop_first() =~= fragment_events(frags.drop_first()) + tail);
        let t1 = Turn { status: t.status, history: t.history, reply: t.reply + frags[0] };
        assert(step(t, Ok(first)) == t1);
        assert(all_nonempty(frags.drop_first())) by {
            assert forall|i: int| 0 <= i < frags.drop_first().len() implies #[trigger] frags.drop_first()[i].len() > 0 by {
                assert(frags.drop_first()[i] == frags[i + 1]);
            }
        }
        lemma_fragments(t1, frags.drop_first(), tail);
        assert(t.reply + frags[0] + frags.drop_first().flatten() =~= t.reply + frags.flatten());
        assert(live_fragments(frags) =~= seq![Ok::<Seq<char>, ErrorView>(frags[0])] + live_fragments(frags.drop_first()));
        assert(seq![forwarded(Ok(first))] + (live_fragments(frags.drop_first()) + run_live(tail))
            =~= live_fragments(frags) + run_live(tail));
    }
}

/// A turn whose backend delivers its fragments and then the end marker, with
/// no cancel request, leaves the session usable with the query and the whole
/// reply appended to the history: two entries more than before.
pub proof fn lemma_successful_turn(
    history: Seq<MessageView>,
    query: Seq<char>,
    frags: Seq<Seq<char>>,
    end: MessageView,
)
    requires
        all_nonempty(frags),
        end.content.len() == 0,
    ensures
        ({
            let r = run(accepted(history, query), fragment_events(frags) + seq![TurnEvent::Item(Ok(end))]);
            &&& r.status == SessionStatus::Usable
            &&& r.history == history.push(message_of(RoleView::User, query)).push(
                message_of(RoleView::Assistant, frags.flatten()),
            )
            &&& r.history.len() == history.len() + 2
        }),
        run_live(fragment_events(frags) + seq![TurnEvent::Item(Ok(end))]) == live_fragments(frags) + seq![
            Ok::<Seq<char>, ErrorView>(end.content),
        ],
{
    let t = accepted(history, query);
    let tail = seq![TurnEvent::Item(Ok(end))];
    lemma_fragments(t, frags, tail);
    assert(tail.drop_first() =~= Seq::<TurnEvent>::empty());
    assert(Seq::<char>::empty() + frags.flatten() =~= frags.flatten());
}

/// A turn whose backend fails after some fragments leaves the session usable
/// and the history exactly as it was before the turn; the live view receives
/// the fragments and then the error.
pub proof fn lemma_failed_turn(
    history: Seq<MessageView>,
    query: Seq<char>,
    frags: Seq<Seq<char>>,
    err: ErrorView,
)
    requires
        all_nonempty(frags),
    ensures
        ({
            let r = run(accepted(history, query), fragment_events(frags) + seq![TurnEvent::Item(Err(err))]);
            &&& r.status == SessionStatus::Usable
            &&& r.history == history
        }),
        run_live(fragment_events(frags) + seq![TurnEvent::Item(Err(err))]) == live_fragments(frags) + seq![
            Err::<Seq<char>, ErrorView>(err),
        ],
{
    let t = accepted(history, query);
    lemma_fragments(t, frags, seq![TurnEvent::Item(Err(err))]);
    assert(t.history.drop_last() =~= history);
}

/// A turn that is cancelled while it streams, and then ends normally or with
/// an error, leaves the session usable and the history exactly as it was
/// before the turn: the reply is discarded, though the live view still
/// receives every fragment and the final item.
pub proof fn lemma_cancelled_turn(
    history: Seq<MessageView>,
    query: Seq<char>,
    before: Seq<Seq<char>>,
    after: Seq<Seq<char>>,
    last: ItemView,
)
    requires
        all_nonempty(before),
        all_nonempty(after),
        ends_turn(last),
    ensures
        ({
            let r = run(
                accepted(history, query),
                fragment_events(before) + (seq![TurnEvent::Cancel] + (fragment_events(after) + seq![
                    TurnEvent::Item(last),
                ])),
            );
            &&& r.status == SessionStatus::Usable
            &&& r.history == history
        }),
        run_live(
            fragment_events(before) + (seq![TurnEvent::Cancel] + (fragment_events(after) + seq![
                TurnEvent::Item(last),
            ])),
        ) == live_fragments(before) + live_fragments(after) + seq![forwarded(last)],
{
    let t = accepted(history, query);
    let tail2 = fragment_events(after) + seq![TurnEvent::Item(last)];
    let tail1 = seq![TurnEvent::Cancel] + tail2;
    lemma_fragments(t, before, tail1);
    let t1 = Turn { status: t.status, history: t.history, reply: t.reply + before.flatten() };
    assert(tail1[0] == TurnEvent::Cancel);
    assert(tail1.drop_first() =~= tail2);
    let t2 = cancel(t1);
    lemma_fragments(t2, after, seq![TurnEvent::Item(last)]);
    assert(t.history.drop_last() =~= history);
    assert(live_fragments(before) + (live_fragments(after) + seq![forwarded(last)])
        =~= live_fragments(before) + live_fragments(after) + seq![forwarded(last)]);
}

/// When the history holds more entries than the window, the window holds
/// exactly the `max_history` most recent ones in order, after the system
/// prompt if there is one and before the query.
pub proof fn lemma_window_keeps_most_recent(
    history: Seq<MessageView>,
    max_history: nat,
    prompt: Seq<char>,
    query: Seq<char>,
)
    requires
        history.len() > max_history,
    ensures
        ({
            let w = prompt_window(history, max_history, prompt, query);
            let h: int = if prompt.len() == 0 { 0 } else { 1 };
            &&& w.len() == h + max_history + 1
            &&& prompt.len() > 0 ==> w[0] == message_of(RoleView::System, prompt)
            &&& forall|i: int| 0 <= i < max_history ==> #[trigger] w[h + i] == history[history.len() - max_history + i]
            &&& w.last() == message_of(RoleView::User, query)
        }),
{
}

} // verus!
