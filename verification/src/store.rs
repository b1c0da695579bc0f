//! The live tokens, keyed by identifier.

use vstd::prelude::*;
use crate::token::{bytes_equal, TokenView, VerificationToken, TOKEN_ID_LEN};

verus! {

/// True when position `i` of `rows` holds the token with identifier `id`.
spec fn holds_at(rows: Seq<VerificationToken>, id: Seq<u8>, i: int) -> bool {
    0 <= i < rows.len() && rows[i].id@ == id
}

/// No identifier occurs twice, and each has the fixed length.
spec fn well_keyed(rows: Seq<VerificationToken>) -> bool {
    &&& forall|i: int| 0 <= i < rows.len() ==> (#[trigger] rows[i]).id@.len() == TOKEN_ID_LEN
    &&& forall|i: int, j: int|
        0 <= i < j < rows.len() ==> (#[trigger] rows[i]).id@ != (#[trigger] rows[j]).id@
}

/// The rows as a map from identifier to token.
spec fn as_map(rows: Seq<VerificationToken>) -> Map<Seq<u8>, TokenView> {
    Map::new(
        |id: Seq<u8>| exists|i: int| holds_at(rows, id, i),
        |id: Seq<u8>| rows[choose|i: int| holds_at(rows, id, i)]@,
    )
}

proof fn lemma_row_is_mapped(rows: Seq<VerificationToken>, i: int)
    requires
        well_keyed(rows),
        0 <= i < rows.len(),
    ensures
        as_map(rows).contains_key(rows[i].id@),
        as_map(rows)[rows[i].id@] == rows[i]@,
{
    let id = rows[i].id@;
    assert(holds_at(rows, id, i));
    let j = choose|j: int| holds_at(rows, id, j);
    assert(j == i);
}

proof fn lemma_push_inserts(rows: Seq<VerificationToken>, token: VerificationToken)
    requires
        well_keyed(rows),
        token.id@.len() == TOKEN_ID_LEN,
        !as_map(rows).contains_key(token.id@),
    ensures
        well_keyed(rows.push(token)),
        as_map(rows.push(token)) == as_map(rows).insert(token.id@, token@),
{
    let grown = rows.push(token);
    let expected = as_map(rows).insert(token.id@, token@);
    assert forall|i: int| 0 <= i < rows.len() implies grown[i].id@ != token.id@ by {
        assert(holds_at(rows, grown[i].id@, i));
    }
    assert forall|id: Seq<u8>| as_map(grown).contains_key(id) <==> expected.contains_key(id) by {
        if as_map(grown).contains_key(id) {
            let i = choose|i: int| holds_at(grown, id, i);
            if i < rows.len() {
                assert(holds_at(rows, id, i));
            }
        } else if id == token.id@ {
            assert(holds_at(grown, id, rows.len() as int));
        } else if as_map(rows).contains_key(id) {
            let i = choose|i: int| holds_at(rows, id, i);
            assert(holds_at(grown, id, i));
        }
    }
    assert forall|id: Seq<u8>| as_map(grown).contains_key(id) implies as_map(grown)[id]
        == expected[id] by {
        let i = choose|i: int| holds_at(grown, id, i);
        lemma_row_is_mapped(grown, i);
        if i < rows.len() {
            lemma_row_is_mapped(rows, i);
        }
    }
    assert(as_map(grown) =~= expected);
}

/// Where the row at position `i` stood before the row at `at` was taken out.
spec fn before_removal(i: int, at: int) -> int {
    if i < at {
        i
    } else {
        i + 1
    }
}

proof fn lemma_remove_deletes(rows: Seq<VerificationToken>, at: int)
    requires
        well_keyed(rows),
        0 <= at < rows.len(),
    ensures
        well_keyed(rows.remove(at)),
        as_map(rows.remove(at)) == as_map(rows).remove(rows[at].id@),
{
    let rest = rows.remove(at);
    let expected = as_map(rows).remove(rows[at].id@);
    assert forall|i: int| 0 <= i < rest.len() implies #[trigger] rest[i] == rows[before_removal(
        i,
        at,
    )] by {}
    assert forall|id: Seq<u8>| as_map(rest).contains_key(id) <==> expected.contains_key(id) by {
        if as_map(rest).contains_key(id) {
            let i = choose|i: int| holds_at(rest, id, i);
            assert(holds_at(rows, id, before_removal(i, at)));
        } else if expected.contains_key(id) {
            let i = choose|i: int| holds_at(rows, id, i);
            assert(holds_at(rest, id, if i < at { i } else { i - 1 }));
        }
    }
    assert forall|id: Seq<u8>| as_map(rest).contains_key(id) implies as_map(rest)[id]
        == expected[id] by {
        let i = choose|i: int| holds_at(rest, id, i);
        lemma_row_is_mapped(rest, i);
        lemma_row_is_mapped(rows, before_removal(i, at));
    }
    assert(as_map(rest) =~= expected);
}

/// The store of live tokens: at most one token for an identifier.
pub struct TokenStore {
    rows: Vec<VerificationToken>,
}

impl View for TokenStore {
    type V = Map<Seq<u8>, TokenView>;

    closed spec fn view(&self) -> Map<Seq<u8>, TokenView> {
        as_map(self.rows@)
    }
}

impl TokenStore {
    /// The store's invariant: no identifier is kept twice, and each has the
    /// fixed length.
    pub closed spec fn wf(&self) -> bool {
        well_keyed(self.rows@)
    }

    /// Every stored token is kept under its own identifier, which has the
    /// fixed length.
    pub proof fn lemma_keys(&self, id: Seq<u8>)
        requires
            self.wf(),
            self@.contains_key(id),
        ensures
            self@[id].id == id,
            id.len() == TOKEN_ID_LEN,
    {
        let i = choose|i: int| holds_at(self.rows@, id, i);
        lemma_row_is_mapped(self.rows@, i);
    }

    /// A store that holds no token.
    pub fn new() -> (store: TokenStore)
        ensures
            store.wf(),
            store@ == Map::<Seq<u8>, TokenView>::empty(),
    {
        let store = TokenStore { rows: Vec::new() };
        assert(store@ =~= Map::<Seq<u8>, TokenView>::empty());
        store
    }

    /// Where the token with this identifier is kept, if anywhere.
    fn position(&self, id: &[u8]) -> (at: Option<usize>)
        requires
            self.wf(),
        ensures
            match at {
                Some(i) => holds_at(self.rows@, id@, i as int),
                None => !self@.contains_key(id@),
            },
    {
        let mut i: usize = 0;
        while i < self.rows.len()
            invariant
                i <= self.rows@.len(),
                forall|k: int| 0 <= k < i ==> !holds_at(self.rows@, id@, k),
            decreases self.rows@.len() - i,
        {
            if bytes_equal(self.rows[i].id.as_slice(), id) {
                return Some(i);
            }
            i = i + 1;
        }
        None
    }

    /// Looks a token up by its identifier.
    pub fn get(&self, id: &[u8]) -> (found: Option<&VerificationToken>)
        requires
            self.wf(),
        ensures
            found is Some <==> self@.contains_key(id@),
            found matches Some(token) ==> token@ == self@[id@] && token@.id == id@,
            found is Some ==> id@.len() == TOKEN_ID_LEN,
    {
        match self.position(id) {
            Some(i) => {
                proof {
                    lemma_row_is_mapped(self.rows@, i as int);
                }
                Some(&self.rows[i])
            },
            None => None,
        }
    }

    /// Stores a token unless its identifier is taken or has the wrong length.
    /// Says whether the token was stored.
    pub fn put(&mut self, token: VerificationToken) -> (stored: bool)
        requires
            old(self).wf(),
        ensures
            final(self).wf(),
            stored == (token.id@.len() == TOKEN_ID_LEN && !old(self)@.contains_key(token.id@)),
            final(self)@ == if stored {
                old(self)@.insert(token.id@, token@)
            } else {
                old(self)@
            },
    {
        if token.id.len() != TOKEN_ID_LEN {
            return false;
        }
        if let Some(i) = self.position(token.id.as_slice()) {
            proof {
                lemma_row_is_mapped(self.rows@, i as int);
            }
            return false;
        }
        proof {
            lemma_push_inserts(self.rows@, token);
        }
        self.rows.push(token);
        true
    }

    /// Removes the token with this identifier, if there is one, in one step.
    /// Says whether a token was removed.
    pub fn delete_if_present(&mut self, id: &[u8]) -> (removed: bool)
        requires
            old(self).wf(),
        ensures
            final(self).wf(),
            removed == old(self)@.contains_key(id@),
            final(self)@ == old(self)@.remove(id@),
    {
        match self.position(id) {
            Some(i) => {
                proof {
                    lemma_row_is_mapped(self.rows@, i as int);
                    lemma_remove_deletes(self.rows@, i as int);
                }
                self.rows.remove(i);
                true
            },
            None => {
                assert(self@.remove(id@) =~= self@);
                false
            },
        }
    }
}

} // verus!
