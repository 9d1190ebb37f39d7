//! The registry state: owners, contributors and registered memes.

use vstd::prelude::*;

verus! {

/// Why an operation on the museum was refused.
#[derive(Clone, Copy, Debug, PartialEq, Eq, Structural)]
pub enum MuseumError {
    /// The caller lacks the role that the operation asks for.
    Unauthorized,
    /// The attached deposit is at or below the minimum balance of a meme.
    InsufficientFunds,
    /// The derived sub-account does not follow the host's naming rules.
    InvalidIdentifier,
    /// A meme with that sub-account is already registered.
    DuplicateResource,
    /// The contract state has not been initialized.
    NotInitialized,
    /// The contract state was initialized before.
    AlreadyInitialized,
    /// The caller is not a contributor.
    NotFound,
}

/// The museum as mathematics: each account as its characters.
pub struct MuseumView {
    pub name: Seq<char>,
    pub created_at: u64,
    pub owners: Seq<Seq<char>>,
    pub memes: Seq<Seq<char>>,
    pub contributors: Seq<Seq<char>>,
}

/// The accounts of a list, as character sequences.
pub open spec fn accounts(v: Vec<String>) -> Seq<Seq<char>> {
    v.deep_view()
}

/// `s` with its first occurrence of `a` taken out, at index `i`.
pub open spec fn removes_first_at(s: Seq<Seq<char>>, a: Seq<char>, i: int, t: Seq<Seq<char>>) -> bool {
    &&& 0 <= i < s.len()
    &&& s[i] == a
    &&& forall|j: int| 0 <= j < i ==> s[j] != a
    &&& t == s.remove(i)
}

/// The durable record of the museum.
pub struct Museum {
    pub(crate) museum_name: String,
    pub(crate) created_at: u64,
    pub(crate) owners: Vec<String>,
    pub(crate) memes: Vec<String>,
    pub(crate) contributors: Vec<String>,
}

impl View for Museum {
    type V = MuseumView;

    closed spec fn view(&self) -> MuseumView {
        MuseumView {
            name: self.museum_name@,
            created_at: self.created_at,
            owners: accounts(self.owners),
            memes: accounts(self.memes),
            contributors: accounts(self.contributors),
        }
    }
}

/// Whether `a` occurs in `v`.
fn list_contains(v: &Vec<String>, a: &String) -> (r: bool)
    ensures
        r == accounts(*v).contains(a@),
{
    let mut i: usize = 0;
    while i < v.len()
        invariant
            i <= v.len(),
            forall|j: int| 0 <= j < i ==> accounts(*v)[j] != a@,
        decreases v.len() - i,
    {
        if v[i] == *a {
            assert(accounts(*v)[i as int] == a@);
            return true;
        }
        i = i + 1;
    }
    false
}

/// A copy of a list of accounts.
fn copy_list(v: &Vec<String>) -> (r: Vec<String>)
    ensures
        accounts(r) == accounts(*v),
{
    let mut r: Vec<String> = Vec::new();
    let mut i: usize = 0;
    while i < v.len()
        invariant
            i <= v.len(),
            accounts(r) =~= accounts(*v).subrange(0, i as int),
        decreases v.len() - i,
    {
        let c = v[i].clone();
        let ghost before = accounts(r);
        r.push(c);
        assert(accounts(r) =~= before.push(accounts(*v)[i as int]));
        i = i + 1;
    }
    assert(accounts(*v).subrange(0, v.len() as int) =~= accounts(*v));
    r
}

impl Museum {
    /// A museum with the given name and creation time, and no owners,
    /// contributors or memes.
    pub fn new(museum_name: String, created_at: u64) -> (r: Self)
        ensures
            r@.name == museum_name@,
            r@.created_at == created_at,
            r@.owners == Seq::<Seq<char>>::empty(),
            r@.memes == Seq::<Seq<char>>::empty(),
            r@.contributors == Seq::<Seq<char>>::empty(),
    {
        let r = Museum {
            museum_name,
            created_at,
            owners: Vec::new(),
            memes: Vec::new(),
            contributors: Vec::new(),
        };
        assert(accounts(r.owners) =~= Seq::<Seq<char>>::empty());
        assert(accounts(r.memes) =~= Seq::<Seq<char>>::empty());
        assert(accounts(r.contributors) =~= Seq::<Seq<char>>::empty());
        r
    }

    /// A museum made of its recorded fields.
    pub fn from_parts(
        museum_name: String,
        created_at: u64,
        owners: Vec<String>,
        memes: Vec<String>,
        contributors: Vec<String>,
    ) -> (r: Self)
        ensures
            r@.name == museum_name@,
            r@.created_at == created_at,
            r@.owners == accounts(owners),
            r@.memes == accounts(memes),
            r@.contributors == accounts(contributors),
    {
        Museum { museum_name, created_at, owners, memes, contributors }
    }

    /// The museum's name.
    pub fn get_name(&self) -> (r: String)
        ensures
            r@ == self@.name,
    {
        self.museum_name.clone()
    }

    /// When the museum was created.
    pub fn get_created_at(&self) -> (r: u64)
        ensures
            r == self@.created_at,
    {
        self.created_at
    }

    /// A copy of the museum.
    pub fn copy(&self) -> (r: Self)
        ensures
            r@ == self@,
    {
        Museum {
            museum_name: self.museum_name.clone(),
            created_at: self.created_at,
            owners: copy_list(&self.owners),
            memes: copy_list(&self.memes),
            contributors: copy_list(&self.contributors),
        }
    }

    pub fn get_owner_list(&self) -> (r: Vec<String>)
        ensures
            accounts(r) == self@.owners,
    {
        copy_list(&self.owners)
    }

    pub fn get_meme_list(&self) -> (r: Vec<String>)
        ensures
            accounts(r) == self@.memes,
    {
        copy_list(&self.memes)
    }

    pub fn get_contributor_list(&self) -> (r: Vec<String>)
        ensures
            accounts(r) == self@.contributors,
    {
        copy_list(&self.contributors)
    }

    pub fn get_meme_count(&self) -> (r: usize)
        ensures
            r == self@.memes.len(),
    {
        self.memes.len()
    }

    pub fn is_contributor(&self, account: &String) -> (r: bool)
        ensures
            r == self@.contributors.contains(account@),
    {
        list_contains(&self.contributors, account)
    }

    pub fn has_owner(&self, account: &String) -> (r: bool)
        ensures
            r == self@.owners.contains(account@),
    {
        list_contains(&self.owners, account)
    }

    pub fn has_meme(&self, account: &String) -> (r: bool)
        ensures
            r == self@.memes.contains(account@),
    {
        list_contains(&self.memes, account)
    }

    /// Appends `caller` to the contributors; an account already there is
    /// appended again.
    pub fn add_myself_as_contributor(&mut self, caller: String)
        ensures
            final(self)@ == (MuseumView {
                contributors: old(self)@.contributors.push(caller@),
                ..old(self)@
            }),
    {
        let ghost a = caller@;
        self.contributors.push(caller);
        assert(accounts(self.contributors) =~= accounts(old(self).contributors).push(a));
    }

    /// Removes the first occurrence of `caller` from the contributors, or
    /// fails with `NotFound` where `caller` is not one of them.
    pub fn remove_myself_as_contributor(&mut self, caller: &String) -> (r: Result<(), MuseumError>)
        ensures
            !old(self)@.contributors.contains(caller@) ==> r == Err::<(), MuseumError>(
                MuseumError::NotFound,
            ) && final(self)@ == old(self)@,
            old(self)@.contributors.contains(caller@) ==> r == Ok::<(), MuseumError>(()) && exists|
                i: int,
            |
                removes_first_at(
                    old(self)@.contributors,
                    caller@,
                    i,
                    #[trigger] final(self)@.contributors,
                ),
            final(self)@.name == old(self)@.name,
            final(self)@.created_at == old(self)@.created_at,
            final(self)@.owners == old(self)@.owners,
            final(self)@.memes == old(self)@.memes,
    {
        let mut i: usize = 0;
        while i < self.contributors.len()
            invariant
                i <= self.contributors.len(),
                *self == *old(self),
                forall|j: int| 0 <= j < i ==> accounts(self.contributors)[j] != caller@,
            decreases self.contributors.len() - i,
        {
            if self.contributors[i] == *caller {
                let ghost before = accounts(self.contributors);
                assert(before[i as int] == caller@);
                self.contributors.remove(i);
                assert(accounts(self.contributors) =~= before.remove(i as int));
                assert(removes_first_at(old(self)@.contributors, caller@, i as int, self@.contributors));
                return Ok(());
            }
            i = i + 1;
        }
        assert(!accounts(self.contributors).contains(caller@));
        Err(MuseumError::NotFound)
    }

    /// Registers the meme at `account`.
    pub fn add_meme(&mut self, account: String)
        ensures
            final(self)@ == (MuseumView { memes: old(self)@.memes.push(account@), ..old(self)@ }),
    {
        let ghost a = account@;
        self.memes.push(account);
        assert(accounts(self.memes) =~= accounts(old(self).memes).push(a));
    }
}

} // verus!
