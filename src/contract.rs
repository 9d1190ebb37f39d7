//! The contract's entry points: membership management and the provisioning
//! workflow of a meme.
//!
//! Provisioning runs in two phases. `add_meme` checks the request against
//! the registry and returns the remote operations to schedule: create the
//! sub-account, give it the signer's full access key, deploy the meme's
//! code, call its `init` with the whole deposit, then call back
//! `on_add_meme`. The host reports in that
//! callback whether `init` succeeded, and only then is the meme registered.

use vstd::prelude::*;
use crate::account::{host_accepts_account_id, sub_account, sub_account_for, valid_account_id};
use crate::museum::{accounts, Museum, MuseumError, MuseumView};

verus! {

/// The balance, in yoctoNEAR, that a meme's account needs: its creation and
/// its storage. The deposit of `add_meme` must exceed it.
pub const MIN_ACCOUNT_BALANCE: u128 = 3_000_000_000_000_000_000_000_000;

/// Gas for each cross-contract call of the workflow.
pub const XCC_GAS: u64 = 20_000_000_000_000;

/// The deposit attached to the callback.
pub const NO_DEPOSIT: u128 = 0;

/// The kind of a meme.
#[derive(Clone, Copy, Debug, PartialEq, Eq, Structural)]
pub enum Category {
    A,
    B,
    C,
    D,
}

/// The arguments of a meme's `init` entry point.
pub struct MemeInitArgs {
    pub title: String,
    pub data: String,
    pub category: Category,
}

/// One remote operation on a meme's new account.
#[derive(Clone, Copy, Debug, PartialEq, Eq, Structural)]
pub enum ProvisioningStep {
    /// Create the account.
    CreateAccount,
    /// Give it the signer's key as a full access key.
    AddSignerFullAccessKey,
    /// Deploy the meme's code to it.
    DeployCode,
    /// Call its `init` with the arguments, the deposit and the gas of the
    /// plan.
    CallInit,
}

/// The steps of provisioning, in the order in which they run.
pub open spec fn provisioning_steps() -> Seq<ProvisioningStep> {
    seq![
        ProvisioningStep::CreateAccount,
        ProvisioningStep::AddSignerFullAccessKey,
        ProvisioningStep::DeployCode,
        ProvisioningStep::CallInit,
    ]
}

/// The remote operations that provision one meme: `steps` on the account
/// `account_id`, where `init` gets `init_args`, `init_deposit` and
/// `init_gas`; then a call of `on_add_meme` on this contract with
/// `account_id`, `callback_deposit` and `callback_gas`, once `init` has
/// resolved.
pub struct MemeCreation {
    pub account_id: String,
    pub steps: Vec<ProvisioningStep>,
    pub init_args: MemeInitArgs,
    pub init_deposit: u128,
    pub init_gas: u64,
    pub callback_deposit: u128,
    pub callback_gas: u64,
}

/// What the host tells a call about its surroundings.
pub struct CallContext {
    /// The account that made the call.
    pub predecessor: String,
    /// This contract's own account.
    pub current_account: String,
    /// The deposit attached to the call.
    pub attached_deposit: u128,
    /// The time of the block.
    pub block_timestamp: u64,
    /// Whether the contract's state was stored before.
    pub state_exists: bool,
}

/// Whether `caller` may add memes: a contributor or an owner.
pub open spec fn may_add_memes(m: MuseumView, caller: Seq<char>) -> bool {
    m.contributors.contains(caller) || m.owners.contains(caller)
}

/// The error with which `add_meme` refuses a request, checked in this
/// order, or `None` where the request is accepted.
pub open spec fn add_meme_error(
    m: MuseumView,
    caller: Seq<char>,
    deposit: u128,
    account_id: Seq<char>,
) -> Option<MuseumError> {
    if !may_add_memes(m, caller) {
        Some(MuseumError::Unauthorized)
    } else if deposit <= MIN_ACCOUNT_BALANCE {
        Some(MuseumError::InsufficientFunds)
    } else if !valid_account_id(account_id) {
        Some(MuseumError::InvalidIdentifier)
    } else if m.memes.contains(account_id) {
        Some(MuseumError::DuplicateResource)
    } else {
        None
    }
}

/// How one entry point changes the registered memes: it leaves them as
/// they were, or appends the one meme that it records.
pub open spec fn memes_step(before: MuseumView, after: MuseumView, recorded: Option<Seq<char>>) -> bool {
    match recorded {
        None => after.memes == before.memes,
        Some(a) => after.memes == before.memes.push(a),
    }
}

/// Whether one of the steps recorded `a`.
pub open spec fn was_recorded(recorded: Seq<Option<Seq<char>>>, a: Seq<char>) -> bool {
    exists|k: int| 0 <= k < recorded.len() && #[trigger] recorded[k] == Some(a)
}

/// The registered memes only grow: over any run of entry points, each of
/// which changes the memes as `memes_step` allows, the first memes stay in
/// place at the front, and every meme added since was recorded by one of
/// the steps.
pub proof fn lemma_memes_append_only(trace: Seq<MuseumView>, recorded: Seq<Option<Seq<char>>>)
    requires
        trace.len() == recorded.len() + 1,
        forall|k: int|
            0 <= k < recorded.len() ==> #[trigger] memes_step(trace[k], trace[k + 1], recorded[k]),
    ensures
        trace[0].memes.len() <= trace.last().memes.len(),
        trace.last().memes.subrange(0, trace[0].memes.len() as int) == trace[0].memes,
        forall|j: int|
            trace[0].memes.len() <= j < trace.last().memes.len() ==> was_recorded(
                recorded,
                #[trigger] trace.last().memes[j],
            ),
    decreases recorded.len(),
{
    if recorded.len() > 0 {
        let n = recorded.len() - 1;
        let t = trace.drop_last();
        let r = recorded.drop_last();
        assert forall|k: int| 0 <= k < r.len() implies #[trigger] memes_step(t[k], t[k + 1], r[k]) by {
            assert(memes_step(trace[k], trace[k + 1], recorded[k]));
        }
        lemma_memes_append_only(t, r);
        assert(memes_step(trace[n], trace[n + 1], recorded[n]));
        let first = trace[0].memes;
        let mid = t.last().memes;
        let last = trace.last().memes;
        assert(t.last() == trace[n]);
        assert(last.subrange(0, mid.len() as int) =~= mid);
        assert(last.subrange(0, first.len() as int) =~= mid.subrange(0, first.len() as int));
        assert forall|j: int| first.len() <= j < last.len() implies was_recorded(
            recorded,
            #[trigger] last[j],
        ) by {
            if j < mid.len() {
                assert(mid[j] == last[j]);
                assert(was_recorded(r, mid[j]));
                let k = choose|k: int| 0 <= k < r.len() && #[trigger] r[k] == Some(mid[j]);
                assert(recorded[k] == Some(last[j]));
            } else {
                assert(recorded[n] == Some(last[j]));
            }
        }
    }
}

/// A caller that is neither a contributor nor an owner is refused with
/// `Unauthorized`, whatever the deposit and the name.
pub proof fn lemma_outsider_is_unauthorized(
    m: MuseumView,
    caller: Seq<char>,
    deposit: u128,
    account_id: Seq<char>,
)
    requires
        !m.contributors.contains(caller),
        !m.owners.contains(caller),
    ensures
        add_meme_error(m, caller, deposit, account_id) == Some(MuseumError::Unauthorized),
{
}

/// The deposit must exceed the minimum strictly: a member attaching exactly
/// the minimum is refused with `InsufficientFunds`, and one unit more passes
/// the funds check.
pub proof fn lemma_funds_boundary(m: MuseumView, caller: Seq<char>, account_id: Seq<char>)
    requires
        may_add_memes(m, caller),
    ensures
        add_meme_error(m, caller, MIN_ACCOUNT_BALANCE, account_id) == Some(
            MuseumError::InsufficientFunds,
        ),
        add_meme_error(m, caller, (MIN_ACCOUNT_BALANCE + 1) as u128, account_id) != Some(
            MuseumError::InsufficientFunds,
        ),
        add_meme_error(m, caller, (MIN_ACCOUNT_BALANCE + 1) as u128, account_id) != Some(
            MuseumError::Unauthorized,
        ),
{
}

/// Once a meme is registered, a new request for the same account is
/// refused with `DuplicateResource`, even from a member with enough deposit
/// and a valid name. Requests made before the registration are not
/// affected: the check is advisory and reserves nothing.
pub proof fn lemma_registered_meme_is_duplicate(
    m: MuseumView,
    caller: Seq<char>,
    deposit: u128,
    account_id: Seq<char>,
)
    requires
        may_add_memes(m, caller),
        deposit > MIN_ACCOUNT_BALANCE,
        valid_account_id(account_id),
        m.memes.contains(account_id),
    ensures
        add_meme_error(m, caller, deposit, account_id) == Some(MuseumError::DuplicateResource),
{
}

/// The contract: the museum it keeps.
pub struct MemeMuseum {
    museum: Museum,
}

impl View for MemeMuseum {
    type V = MuseumView;

    closed spec fn view(&self) -> MuseumView {
        self.museum@
    }
}

impl MemeMuseum {
    /// Creates the contract's state, once: fails with `AlreadyInitialized`
    /// where a state was stored before.
    pub fn init(ctx: &CallContext, museum_name: String, owners: Vec<String>) -> (r: Result<
        Self,
        MuseumError,
    >)
        ensures
            ctx.state_exists ==> r is Err && r->Err_0 == MuseumError::AlreadyInitialized,
            !ctx.state_exists ==> r is Ok && r->Ok_0@ == (MuseumView {
                name: museum_name@,
                created_at: ctx.block_timestamp,
                owners: accounts(owners),
                memes: Seq::empty(),
                contributors: Seq::empty(),
            }),
    {
        if ctx.state_exists {
            return Err(MuseumError::AlreadyInitialized);
        }
        let memes: Vec<String> = Vec::new();
        let contributors: Vec<String> = Vec::new();
        assert(accounts(memes) =~= Seq::empty());
        assert(accounts(contributors) =~= Seq::empty());
        let museum = Museum::from_parts(museum_name, ctx.block_timestamp, owners, memes, contributors);
        Ok(MemeMuseum { museum })
    }

    /// The contract over a museum read back from storage.
    pub fn from_museum(museum: Museum) -> (r: Self)
        ensures
            r@ == museum@,
    {
        MemeMuseum { museum }
    }

    pub fn get_museum(&self) -> (r: Museum)
        ensures
            r@ == self@,
    {
        self.museum.copy()
    }

    pub fn get_owner_list(&self) -> (r: Vec<String>)
        ensures
            accounts(r) == self@.owners,
    {
        self.museum.get_owner_list()
    }

    pub fn get_meme_list(&self) -> (r: Vec<String>)
        ensures
            accounts(r) == self@.memes,
    {
        self.museum.get_meme_list()
    }

    pub fn get_meme_count(&self) -> (r: usize)
        ensures
            r == self@.memes.len(),
    {
        self.museum.get_meme_count()
    }

    /// Makes the caller a contributor; fails with `NotInitialized`, changing
    /// nothing, before the state exists.
    pub fn add_myself_as_contributor(&mut self, ctx: &CallContext) -> (r: Result<(), MuseumError>)
        ensures
            memes_step(old(self)@, final(self)@, None),
            !ctx.state_exists ==> r == Err::<(), MuseumError>(MuseumError::NotInitialized)
                && final(self)@ == old(self)@,
            ctx.state_exists ==> r == Ok::<(), MuseumError>(()) && final(self)@ == (MuseumView {
                contributors: old(self)@.contributors.push(ctx.predecessor@),
                ..old(self)@
            }),
    {
        self.assert_contract_is_initialized(ctx)?;
        self.museum.add_myself_as_contributor(ctx.predecessor.clone());
        Ok(())
    }

    /// Takes the caller's first entry out of the contributors. Fails with
    /// `NotInitialized` before the state exists, and with `NotFound` where
    /// the caller is not a contributor; the state is then unchanged.
    pub fn remove_myself_as_contributor(&mut self, ctx: &CallContext) -> (r: Result<(), MuseumError>)
        ensures
            memes_step(old(self)@, final(self)@, None),
            !ctx.state_exists ==> r == Err::<(), MuseumError>(MuseumError::NotInitialized)
                && final(self)@ == old(self)@,
            ctx.state_exists && !old(self)@.contributors.contains(ctx.predecessor@) ==> r == Err::<
                (),
                MuseumError,
            >(MuseumError::NotFound) && final(self)@ == old(self)@,
            ctx.state_exists && old(self)@.contributors.contains(ctx.predecessor@) ==> r == Ok::<
                (),
                MuseumError,
            >(())
                && exists|i: int|
                crate::museum::removes_first_at(
                    old(self)@.contributors,
                    ctx.predecessor@,
                    i,
                    #[trigger] final(self)@.contributors,
                ),
            final(self)@.name == old(self)@.name,
            final(self)@.created_at == old(self)@.created_at,
            final(self)@.owners == old(self)@.owners,
            final(self)@.memes == old(self)@.memes,
    {
        self.assert_contract_is_initialized(ctx)?;
        let r = self.museum.remove_myself_as_contributor(&ctx.predecessor);
        proof {
            if r is Ok {
                let i = choose|i: int|
                    crate::museum::removes_first_at(
                        old(self)@.contributors,
                        ctx.predecessor@,
                        i,
                        #[trigger] self.museum@.contributors,
                    );
                assert(crate::museum::removes_first_at(
                    old(self)@.contributors,
                    ctx.predecessor@,
                    i,
                    self@.contributors,
                ));
            }
        }
        r
    }

    /// Whether the caller is a contributor.
    pub fn is_contributor(&self, ctx: &CallContext) -> (r: bool)
        ensures
            r == self@.contributors.contains(ctx.predecessor@),
    {
        self.museum.is_contributor(&ctx.predecessor)
    }

    /// Whether the caller is an owner.
    pub fn is_owner(&self, ctx: &CallContext) -> (r: bool)
        ensures
            r == self@.owners.contains(ctx.predecessor@),
    {
        self.museum.has_owner(&ctx.predecessor)
    }

    /// The account of the meme `meme`: `<meme>.<this contract's account>`.
    pub fn full_account_for(&self, ctx: &CallContext, meme: String) -> (r: String)
        ensures
            r@ == sub_account(meme@, ctx.current_account@),
    {
        sub_account_for(&meme, &ctx.current_account)
    }

    /// Checks a request for a new meme and plans its provisioning. Fails
    /// with `NotInitialized` before the state exists, then as
    /// `add_meme_error` says. The state is left as it was: the meme is
    /// registered by `on_add_meme` once its `init` has succeeded.
    pub fn add_meme(
        &mut self,
        ctx: &CallContext,
        meme: String,
        title: String,
        data: String,
        category: Category,
    ) -> (r: Result<MemeCreation, MuseumError>)
        ensures
            *final(self) == *old(self),
            memes_step(old(self)@, final(self)@, None),
            !ctx.state_exists ==> r == Err::<MemeCreation, MuseumError>(
                MuseumError::NotInitialized,
            ),
            ctx.state_exists ==> ({
                let e = add_meme_error(
                    old(self)@,
                    ctx.predecessor@,
                    ctx.attached_deposit,
                    sub_account(meme@, ctx.current_account@),
                );
                &&& e is Some ==> r == Err::<MemeCreation, MuseumError>(e->Some_0)
                &&& e is None ==> {
                    &&& r is Ok
                    &&& r->Ok_0.account_id@ == sub_account(meme@, ctx.current_account@)
                    &&& r->Ok_0.steps@ == provisioning_steps()
                    &&& r->Ok_0.init_args.title@ == title@
                    &&& r->Ok_0.init_args.data@ == data@
                    &&& r->Ok_0.init_args.category == category
                    &&& r->Ok_0.init_deposit == ctx.attached_deposit
                    &&& r->Ok_0.init_gas == XCC_GAS
                    &&& r->Ok_0.callback_deposit == NO_DEPOSIT
                    &&& r->Ok_0.callback_gas == XCC_GAS
                }
            }),
    {
        self.assert_contract_is_initialized(ctx)?;
        if !(self.is_contributor(ctx) || self.is_owner(ctx)) {
            return Err(MuseumError::Unauthorized);
        }
        let deposit = ctx.attached_deposit;
        if deposit <= MIN_ACCOUNT_BALANCE {
            return Err(MuseumError::InsufficientFunds);
        }
        let account_id = self.full_account_for(ctx, meme);
        if !host_accepts_account_id(&account_id) {
            return Err(MuseumError::InvalidIdentifier);
        }
        if self.museum.has_meme(&account_id) {
            return Err(MuseumError::DuplicateResource);
        }
        let steps = vec![
            ProvisioningStep::CreateAccount,
            ProvisioningStep::AddSignerFullAccessKey,
            ProvisioningStep::DeployCode,
            ProvisioningStep::CallInit,
        ];
        Ok(MemeCreation {
            account_id,
            steps,
            init_args: MemeInitArgs { title, data, category },
            init_deposit: deposit,
            init_gas: XCC_GAS,
            callback_deposit: NO_DEPOSIT,
            callback_gas: XCC_GAS,
        })
    }

    /// The callback of the workflow: registers the meme at `meme` where its
    /// `init` succeeded, and returns whether it did. Only this contract may
    /// make the call: it fails with `NotInitialized` before the state exists,
    /// and with `Unauthorized` where the caller is another account; the
    /// state is then unchanged.
    pub fn on_add_meme(&mut self, ctx: &CallContext, meme: String, init_succeeded: bool) -> (r:
        Result<bool, MuseumError>)
        ensures
            memes_step(
                old(self)@,
                final(self)@,
                if r == Ok::<bool, MuseumError>(true) {
                    Some(meme@)
                } else {
                    None
                },
            ),
            !ctx.state_exists ==> r == Err::<bool, MuseumError>(MuseumError::NotInitialized),
            ctx.state_exists && ctx.predecessor@ != ctx.current_account@ ==> r == Err::<
                bool,
                MuseumError,
            >(MuseumError::Unauthorized),
            ctx.state_exists && ctx.predecessor@ == ctx.current_account@ ==> r == Ok::<
                bool,
                MuseumError,
            >(init_succeeded),
            r == Ok::<bool, MuseumError>(true) ==> final(self)@ == (MuseumView {
                memes: old(self)@.memes.push(meme@),
                ..old(self)@
            }),
            r != Ok::<bool, MuseumError>(true) ==> final(self)@ == old(self)@,
    {
        self.assert_contract_is_initialized(ctx)?;
        if ctx.predecessor != ctx.current_account {
            return Err(MuseumError::Unauthorized);
        }
        if !init_succeeded {
            Ok(false)
        } else {
            self.museum.add_meme(meme);
            Ok(true)
        }
    }

    /// An owner makes `account` a contributor. Fails with `NotInitialized`
    /// before the state exists, and with `Unauthorized` where the caller is
    /// not an owner; the state is then unchanged.
    pub fn add_contributor(&mut self, ctx: &CallContext, account: String) -> (r: Result<
        (),
        MuseumError,
    >)
        ensures
            memes_step(old(self)@, final(self)@, None),
            !ctx.state_exists ==> r == Err::<(), MuseumError>(MuseumError::NotInitialized),
            ctx.state_exists && !old(self)@.owners.contains(ctx.predecessor@) ==> r == Err::<
                (),
                MuseumError,
            >(MuseumError::Unauthorized),
            r is Err ==> final(self)@ == old(self)@,
            ctx.state_exists && old(self)@.owners.contains(ctx.predecessor@) ==> r == Ok::<
                (),
                MuseumError,
            >(()) && final(self)@ == (MuseumView {
                contributors: old(self)@.contributors.push(account@),
                ..old(self)@
            }),
    {
        self.assert_contract_is_initialized(ctx)?;
        self.assert_signed_by_owner(ctx)?;
        self.museum.add_myself_as_contributor(account);
        Ok(())
    }

    /// Fails with `Unauthorized` unless the caller is an owner.
    pub fn assert_signed_by_owner(&self, ctx: &CallContext) -> (r: Result<(), MuseumError>)
        ensures
            self@.owners.contains(ctx.predecessor@) ==> r == Ok::<(), MuseumError>(()),
            !self@.owners.contains(ctx.predecessor@) ==> r == Err::<(), MuseumError>(
                MuseumError::Unauthorized,
            ),
    {
        if self.is_owner(ctx) {
            Ok(())
        } else {
            Err(MuseumError::Unauthorized)
        }
    }

    /// Fails with `NotInitialized` unless the contract's state exists.
    pub fn assert_contract_is_initialized(&self, ctx: &CallContext) -> (r: Result<(), MuseumError>)
        ensures
            ctx.state_exists ==> r == Ok::<(), MuseumError>(()),
            !ctx.state_exists ==> r == Err::<(), MuseumError>(MuseumError::NotInitialized),
    {
        if self.is_initialized(ctx) {
            Ok(())
        } else {
            Err(MuseumError::NotInitialized)
        }
    }

    /// Whether the contract's state exists.
    pub fn is_initialized(&self, ctx: &CallContext) -> (r: bool)
        ensures
            r == ctx.state_exists,
    {
        ctx.state_exists
    }
}

} // verus!
