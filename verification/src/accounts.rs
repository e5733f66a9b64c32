use vstd::hash_map::StringHashMap;
use vstd::prelude::*;

verus! {

/// What each account has received so far, keyed by account name. An account
/// that was never recorded has received nothing.
pub struct AccountBook {
    entries: StringHashMap<u128>,
}

impl View for AccountBook {
    type V = Map<Seq<char>, nat>;

    closed spec fn view(&self) -> Map<Seq<char>, nat> {
        Map::new(
            |account: Seq<char>| self.entries@.contains_key(account),
            |account: Seq<char>| self.entries@[account] as nat,
        )
    }
}

impl AccountBook {
    /// A book with no account recorded.
    pub fn new() -> (book: Self)
        ensures
            book@ == Map::<Seq<char>, nat>::empty(),
    {
        let book = AccountBook { entries: StringHashMap::new() };
        assert(book@ =~= Map::<Seq<char>, nat>::empty());
        book
    }

    /// The amount recorded for `account_id`, if any.
    pub fn get(&self, account_id: &String) -> (balance: Option<u128>)
        ensures
            match balance {
                Some(amount) => self@.contains_key(account_id@) && self@[account_id@] == amount,
                None => !self@.contains_key(account_id@),
            },
    {
        match self.entries.get(account_id.as_str()) {
            Some(amount) => Some(*amount),
            None => None,
        }
    }

    /// Records `balance` for `account_id`, replacing what was recorded before,
    /// and returns what was recorded before.
    pub fn insert(&mut self, account_id: &String, balance: &u128) -> (previous: Option<u128>)
        ensures
            final(self)@ == old(self)@.insert(account_id@, *balance as nat),
            match previous {
                Some(amount) => old(self)@.contains_key(account_id@) && old(self)@[account_id@]
                    == amount,
                None => !old(self)@.contains_key(account_id@),
            },
    {
        let previous = self.get(account_id);
        self.entries.insert(account_id.clone(), *balance);
        assert(self@ =~= old(self)@.insert(account_id@, *balance as nat));
        previous
    }
}

} // verus!
