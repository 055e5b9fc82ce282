use vstd::prelude::*;

verus! {

/// The credential table: for each registered email, the hash of its password.
///
/// Entries are kept in insertion order with no email appearing twice; the
/// table is seen as a finite map from email to password hash. Emails are
/// compared exactly as given: no case folding or other normalization, so
/// `A@b.com` and `a@b.com` are two accounts.
pub struct CredentialStore {
    entries: Vec<(String, String)>,
    contents: Ghost<Map<Seq<char>, Seq<char>>>,
}

impl View for CredentialStore {
    type V = Map<Seq<char>, Seq<char>>;

    closed spec fn view(&self) -> Map<Seq<char>, Seq<char>> {
        self.contents@
    }
}

impl CredentialStore {
    /// Every entry is in the map, every key of the map has an entry, and no
    /// email has two entries.
    pub closed spec fn wf(&self) -> bool {
        &&& forall|i: int|
            0 <= i < self.entries.len() ==> #[trigger] self.contents@.contains_key(
                self.entries[i].0@,
            ) && self.contents@[self.entries[i].0@] == self.entries[i].1@
        &&& forall|k: Seq<char>|
            #[trigger] self.contents@.contains_key(k) ==> exists|i: int|
                0 <= i < self.entries.len() && self.entries[i].0@ == k
        &&& forall|i: int, j: int|
            0 <= i < j < self.entries.len() ==> self.entries[i].0@ != self.entries[j].0@
    }

    /// An empty table.
    pub fn new() -> (s: Self)
        ensures
            s.wf(),
            s@ == Map::<Seq<char>, Seq<char>>::empty(),
    {
        CredentialStore { entries: Vec::new(), contents: Ghost(Map::empty()) }
    }

    /// Position of `email` among the entries, if it is registered.
    fn position(&self, email: &String) -> (r: Option<usize>)
        requires
            self.wf(),
        ensures
            match r {
                Some(i) => i < self.entries.len() && self.entries[i as int].0@ == email@,
                None => !self@.contains_key(email@),
            },
    {
        let mut i: usize = 0;
        while i < self.entries.len()
            invariant
                i <= self.entries.len(),
                forall|j: int| 0 <= j < i ==> self.entries[j].0@ != email@,
            decreases self.entries.len() - i,
        {
            if self.entries[i].0 == *email {
                return Some(i);
            }
            i = i + 1;
        }
        None
    }

    /// Whether `email` is registered.
    pub fn contains(&self, email: &String) -> (r: bool)
        requires
            self.wf(),
        ensures
            r == self@.contains_key(email@),
    {
        self.position(email).is_some()
    }

    /// The password hash stored for `email`, if it is registered.
    pub fn get(&self, email: &String) -> (r: Option<String>)
        requires
            self.wf(),
        ensures
            match r {
                Some(h) => self@.contains_key(email@) && h@ == self@[email@],
                None => !self@.contains_key(email@),
            },
    {
        match self.position(email) {
            Some(i) => {
                assert(self.contents@.contains_key(self.entries[i as int].0@));
                Some(self.entries[i].1.clone())
            },
            None => None,
        }
    }

    /// Records `hash` as the password hash of `email`, replacing any earlier one.
    pub fn insert(&mut self, email: String, hash: String)
        requires
            old(self).wf(),
        ensures
            final(self).wf(),
            final(self)@ == old(self)@.insert(email@, hash@),
    {
        let ghost before = self.entries@;
        let ghost target = self.contents@.insert(email@, hash@);
        let ghost key = email@;
        let ghost mut slot: int = before.len() as int;
        match self.position(&email) {
            Some(i) => {
                self.entries.set(i, (email, hash));
                proof {
                    slot = i as int;
                    assert(forall|j: int| 0 <= j < before.len() && j != i ==> before[j].0@ != key);
                }
            },
            None => {
                proof {
                    assert forall|j: int| 0 <= j < before.len() implies before[j].0@ != key by {
                        assert(self.contents@.contains_key(before[j].0@));
                    }
                }
                self.entries.push((email, hash));
            },
        }
        self.contents = Ghost(target);
        proof {
            assert forall|k: Seq<char>| #[trigger] target.contains_key(k) implies exists|i: int|
                0 <= i < self.entries.len() && self.entries[i].0@ == k by {
                if k != key {
                    let j = choose|j: int| 0 <= j < before.len() && before[j].0@ == k;
                    assert(self.entries[j].0@ == k);
                } else {
                    assert(self.entries[slot].0@ == key);
                }
            }
        }
    }
}

} // verus!
