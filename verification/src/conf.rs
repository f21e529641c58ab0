use vstd::prelude::*;

verus! {

/// The configuration of the service: the owners that may upload, each with
/// the token by which it is known.
pub struct Conf {
    tokens: Vec<(String, String)>,
}

/// The owner of the first of `entries` whose token is `token`, if there is
/// one. An entry is an owner and its token.
pub open spec fn owner_by_token(entries: Seq<(Seq<char>, Seq<char>)>, token: Seq<char>) -> Option<
    Seq<char>,
>
    decreases entries.len(),
{
    if entries.len() == 0 {
        None
    } else {
        match owner_by_token(entries.drop_last(), token) {
            Some(owner) => Some(owner),
            None => if entries.last().1 == token {
                Some(entries.last().0)
            } else {
                None
            },
        }
    }
}

/// Where `owner` stands in `entries`, if it does.
pub open spec fn position_of(entries: Seq<(Seq<char>, Seq<char>)>, owner: Seq<char>) -> Option<int> {
    if exists|i: int| 0 <= i < entries.len() && (#[trigger] entries[i]).0 == owner {
        Some(choose|i: int| 0 <= i < entries.len() && (#[trigger] entries[i]).0 == owner)
    } else {
        None
    }
}

/// An owner found among the first `k` entries is the owner found among all.
pub proof fn lemma_owner_by_token_front(
    entries: Seq<(Seq<char>, Seq<char>)>,
    token: Seq<char>,
    k: int,
)
    requires
        0 <= k <= entries.len(),
        owner_by_token(entries.take(k), token) is Some,
    ensures
        owner_by_token(entries, token) == owner_by_token(entries.take(k), token),
    decreases entries.len() - k,
{
    if k < entries.len() {
        assert(entries.take(k + 1).drop_last() == entries.take(k));
        lemma_owner_by_token_front(entries, token, k + 1);
    } else {
        assert(entries.take(k) == entries);
    }
}

/// The owner found for a token has that token, and none is found only where
/// no entry has the token.
pub proof fn lemma_owner_by_token(entries: Seq<(Seq<char>, Seq<char>)>, token: Seq<char>)
    ensures
        match owner_by_token(entries, token) {
            Some(owner) => exists|i: int|
                0 <= i < entries.len() && #[trigger] entries[i] == (owner, token),
            None => forall|i: int| 0 <= i < entries.len() ==> (#[trigger] entries[i]).1 != token,
        },
    decreases entries.len(),
{
    if entries.len() > 0 {
        let front = entries.drop_last();
        lemma_owner_by_token(front, token);
        match owner_by_token(front, token) {
            Some(owner) => {
                let i = choose|i: int| 0 <= i < front.len() && #[trigger] front[i] == (owner, token);
                assert(entries[i] == (owner, token));
            },
            None => {
                assert forall|i: int| 0 <= i < entries.len() - 1 implies (#[trigger] entries[i]).1
                    != token by {
                    assert(front[i] == entries[i]);
                }
                if entries.last().1 == token {
                    assert(entries[entries.len() - 1] == (entries.last().0, token));
                }
            },
        }
    }
}

impl View for Conf {
    type V = Seq<(Seq<char>, Seq<char>)>;

    closed spec fn view(&self) -> Seq<(Seq<char>, Seq<char>)> {
        self.tokens@.map_values(|entry: (String, String)| (entry.0@, entry.1@))
    }
}

impl Conf {
    /// Whether no owner stands in the configuration twice.
    pub open spec fn wf(&self) -> bool {
        forall|i: int, j: int| 0 <= i < j < self@.len() ==> self@[i].0 != self@[j].0
    }

    /// A configuration without owners.
    pub fn new() -> (conf: Conf)
        ensures
            conf@ == Seq::<(Seq<char>, Seq<char>)>::empty(),
            conf.wf(),
    {
        let conf = Conf { tokens: Vec::new() };
        assert(conf@ =~= Seq::<(Seq<char>, Seq<char>)>::empty());
        conf
    }

    /// Makes `token` the token of `owner`: in place of the one that `owner`
    /// had, or else as a new entry behind the others.
    pub fn insert(&mut self, owner: String, token: String)
        requires
            old(self).wf(),
        ensures
            final(self).wf(),
            final(self)@ == match position_of(old(self)@, owner@) {
                Some(i) => old(self)@.update(i, (owner@, token@)),
                None => old(self)@.push((owner@, token@)),
            },
    {
        let n = self.tokens.len();
        let mut i: usize = 0;
        while i < n
            invariant
                n == self.tokens.len(),
                i <= n,
                *self == *old(self),
                self.wf(),
                forall|k: int| 0 <= k < i ==> (#[trigger] self@[k]).0 != owner@,
            decreases n - i,
        {
            if self.tokens[i].0 == owner {
                assert(self@[i as int].0 == owner@);
                assert(position_of(self@, owner@) == Some(i as int)) by {
                    let found = position_of(self@, owner@)->0;
                    assert(self@[found].0 == owner@);
                }
                self.tokens.set(i, (owner, token));
                assert(self@ =~= old(self)@.update(i as int, (owner@, token@)));
                return ;
            }
            i = i + 1;
        }
        assert(position_of(self@, owner@) is None);
        self.tokens.push((owner, token));
        assert(self@ =~= old(self)@.push((owner@, token@)));
    }

    /// The owner that is known by `token`.
    pub fn owner_of(&self, token: &str) -> (owner: Option<String>)
        ensures
            owner is Some <==> owner_by_token(self@, token@) is Some,
            owner matches Some(name) ==> owner_by_token(self@, token@) == Some(name@),
    {
        let wanted = token.to_owned();
        let n = self.tokens.len();
        let mut i: usize = 0;
        while i < n
            invariant
                n == self.tokens.len(),
                i <= n,
                wanted@ == token@,
                owner_by_token(self@.take(i as int), token@) is None,
            decreases n - i,
        {
            assert(self@.take(i + 1).drop_last() == self@.take(i as int));
            if self.tokens[i].1 == wanted {
                proof {
                    lemma_owner_by_token_front(self@, token@, i + 1);
                }
                return Some(self.tokens[i].0.clone());
            }
            i = i + 1;
        }
        assert(self@.take(n as int) == self@);
        None
    }
}

} // verus!
