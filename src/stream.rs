use vstd::prelude::*;
use crate::error::{ChatError, ErrorView};
use std::collections::VecDeque;

verus! {

/// One item of the live view: a fragment of text, or the error that ended the turn.
pub type LiveItem = Result<Seq<char>, ErrorView>;

pub open spec fn live_item_of(r: Result<String, ChatError>) -> LiveItem {
    match r {
        Ok(s) => Ok(s@),
        Err(e) => Err(e@),
    }
}

/// The queue that a reader polls for the output of a turn as it arrives.
///
/// Items come out in the order they were pushed. An empty fragment marks the
/// end of the turn.
#[derive(Debug)]
pub struct ChatRespStream {
    chan: VecDeque<Result<String, ChatError>>,
}

impl View for ChatRespStream {
    type V = Seq<LiveItem>;

    closed spec fn view(&self) -> Seq<LiveItem> {
        self.chan@.map_values(|r: Result<String, ChatError>| live_item_of(r))
    }
}

impl ChatRespStream {
    pub fn new() -> (r: ChatRespStream)
        ensures
            r@ == Seq::<LiveItem>::empty(),
    {
        let r = ChatRespStream { chan: VecDeque::new() };
        assert(r@ =~= Seq::<LiveItem>::empty());
        r
    }

    /// Takes the oldest item: `Ok(None)` when nothing has arrived yet.
    pub fn next(&mut self) -> (r: Result<Option<String>, ChatError>)
        ensures
            old(self)@.len() == 0 ==> (r matches Ok(None)) && final(self)@ == old(self)@,
            old(self)@.len() > 0 ==> final(self)@ == old(self)@.drop_first() && match r {
                Ok(Some(s)) => old(self)@[0] == Ok::<Seq<char>, ErrorView>(s@),
                Err(e) => old(self)@[0] == Err::<Seq<char>, ErrorView>(e@),
                Ok(None) => false,
            },
    {
        match self.chan.pop_front() {
            None => Ok(None),
            Some(item) => {
                assert(self@ =~= old(self)@.drop_first());
                match item {
                    Ok(s) => Ok(Some(s)),
                    Err(e) => Err(e),
                }
            },
        }
    }

    /// Appends a fragment.
    pub fn push(&mut self, msg: String)
        ensures
            final(self)@ == old(self)@.push(Ok(msg@)),
    {
        self.chan.push_back(Ok(msg));
        assert(self@ =~= old(self)@.push(Ok(msg@)));
    }

    /// Appends an error.
    pub fn push_err(&mut self, err: ChatError)
        ensures
            final(self)@ == old(self)@.push(Err(err@)),
    {
        self.chan.push_back(Err(err));
        assert(self@ =~= old(self)@.push(Err(err@)));
    }
}

} // verus!
