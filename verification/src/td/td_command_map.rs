//! Which response answers which request.
use vstd::prelude::*;
use crate::keys::{RequestKeys, ResponseKeys};

verus! {

/// The response kind that answers each request kind, as pairs with no
/// request kind twice.
#[derive(Debug)]
pub struct TdCommandMap {
    map: Vec<(RequestKeys, ResponseKeys)>,
}

/// The pairs as a map from request kind to response kind.
pub open spec fn pairs_map(pairs: Seq<(RequestKeys, ResponseKeys)>) -> Map<RequestKeys, ResponseKeys>
    decreases pairs.len(),
{
    if pairs.len() == 0 {
        Map::empty()
    } else {
        pairs_map(pairs.drop_last()).insert(pairs.last().0, pairs.last().1)
    }
}

impl View for TdCommandMap {
    type V = Map<RequestKeys, ResponseKeys>;

    closed spec fn view(&self) -> Map<RequestKeys, ResponseKeys> {
        pairs_map(self.map@)
    }
}

impl TdCommandMap {
    /// The pairs.
    pub fn map(&self) -> (r: &Vec<(RequestKeys, ResponseKeys)>)
        ensures
            pairs_map(r@) == self@,
    {
        &self.map
    }

    /// The known answers: chats for the chat list, messages for a
    /// history, a chat for a chat's details and for a public chat search.
    pub fn new() -> (r: TdCommandMap)
        ensures
            r@ == map![
                RequestKeys::GetChats => ResponseKeys::Chats,
                RequestKeys::GetChatHistory => ResponseKeys::Messages,
                RequestKeys::GetChat => ResponseKeys::Chat,
                RequestKeys::SearchPublicChat => ResponseKeys::Chat,
            ],
    {
        let mut map: Vec<(RequestKeys, ResponseKeys)> = Vec::new();
        map.push((RequestKeys::GetChats, ResponseKeys::Chats));
        map.push((RequestKeys::GetChatHistory, ResponseKeys::Messages));
        map.push((RequestKeys::GetChat, ResponseKeys::Chat));
        map.push((RequestKeys::SearchPublicChat, ResponseKeys::Chat));
        let r = TdCommandMap { map };
        proof {
            reveal_with_fuel(pairs_map, 5);
            let s = r.map@;
            assert(s.drop_last().drop_last().drop_last().drop_last() =~= Seq::<(RequestKeys, ResponseKeys)>::empty());
            assert(r@ =~= map![
                RequestKeys::GetChats => ResponseKeys::Chats,
                RequestKeys::GetChatHistory => ResponseKeys::Messages,
                RequestKeys::GetChat => ResponseKeys::Chat,
                RequestKeys::SearchPublicChat => ResponseKeys::Chat,
            ]);
        }
        r
    }

    /// The response kind that answers a request kind, if known.
    pub fn response_for(&self, request: RequestKeys) -> (r: Option<ResponseKeys>)
        ensures
            match r {
                Some(k) => self@.contains_key(request) && self@[request] == k,
                None => !self@.contains_key(request),
            },
    {
        let mut i: usize = self.map.len();
        while i > 0
            invariant
                i <= self.map.len(),
                forall|j: int| i <= j < self.map@.len() ==> self.map@[j].0 != request,
            decreases i,
        {
            if self.map[i - 1].0 == request {
                proof {
                    lemma_last_pair_wins(self.map@, i - 1);
                }
                return Some(self.map[i - 1].1);
            }
            i = i - 1;
        }
        proof {
            lemma_absent(self.map@, request);
        }
        None
    }
}

proof fn lemma_last_pair_wins(pairs: Seq<(RequestKeys, ResponseKeys)>, k: int)
    requires
        0 <= k < pairs.len(),
        forall|j: int| k < j < pairs.len() ==> pairs[j].0 != pairs[k].0,
    ensures
        pairs_map(pairs).contains_key(pairs[k].0),
        pairs_map(pairs)[pairs[k].0] == pairs[k].1,
    decreases pairs.len(),
{
    if k < pairs.len() - 1 {
        lemma_last_pair_wins(pairs.drop_last(), k);
    }
}

proof fn lemma_absent(pairs: Seq<(RequestKeys, ResponseKeys)>, request: RequestKeys)
    requires
        forall|j: int| 0 <= j < pairs.len() ==> pairs[j].0 != request,
    ensures
        !pairs_map(pairs).contains_key(request),
    decreases pairs.len(),
{
    if pairs.len() > 0 {
        lemma_absent(pairs.drop_last(), request);
    }
}

} // verus!
