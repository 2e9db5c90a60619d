//! Deposits: new validators and top-ups of existing ones.

use vstd::prelude::*;
use crate::context::Context;
use crate::crypto::{signature_valid, verify_signature};
use crate::domains::{compute_domain, compute_signing_root, domain_of, signing_root, DomainType};
use crate::attestations::{domain_array, lemma_domain_array};
use crate::error::{InvalidDeposit, InvalidOperation, TransitionError};
use crate::helpers::increased;
use crate::merkle::{is_valid_merkle_branch, valid_merkle_branch};
use crate::operations::{Deposit, DepositData, DepositMessage};
use crate::primitives::{
    bytes_equal, checked_add, sum_of, BlsPublicKey, Bytes32, Gwei, Root, DEPOSIT_CONTRACT_TREE_DEPTH,
    FAR_FUTURE_EPOCH,
};
use crate::ssz::{deposit_data_root, deposit_message_root};
use crate::state::{registry_moves_on, same_finality, follows, quantized, wf, BeaconState, StateView, Validator};

verus! {

/// The balance rounded down to whole increments and capped at the largest
/// effective balance.
pub open spec fn initial_effective_balance(amount: Gwei, c: Context) -> Gwei {
    let rounded = (amount - amount % c.effective_balance_increment) as u64;
    if rounded < c.max_effective_balance {
        rounded
    } else {
        c.max_effective_balance
    }
}

/// The validator that a deposit creates: it holds the deposited key and
/// withdrawal credentials, is not slashed, and none of its epochs is set.
pub open spec fn validator_of(data: DepositData, c: Context) -> Validator {
    Validator {
        public_key: data.public_key,
        withdrawal_credentials: data.withdrawal_credentials,
        effective_balance: initial_effective_balance(data.amount, c),
        slashed: false,
        activation_eligibility_epoch: FAR_FUTURE_EPOCH,
        activation_epoch: FAR_FUTURE_EPOCH,
        exit_epoch: FAR_FUTURE_EPOCH,
        withdrawable_epoch: FAR_FUTURE_EPOCH,
    }
}

/// The validator that a deposit creates.
pub fn get_validator_from_deposit(deposit: &Deposit, context: &Context) -> (v: Validator)
    requires
        context.valid(),
    ensures
        v == validator_of(deposit.data, *context),
        quantized(v.effective_balance, *context),
{
    let amount = deposit.data.amount;
    proof {
        let inc = context.effective_balance_increment as int;
        vstd::arithmetic::div_mod::lemma_mod_decreases(amount as nat, inc as nat);
        vstd::arithmetic::div_mod::lemma_fundamental_div_mod(amount as int, inc);
        vstd::arithmetic::div_mod::lemma_mod_multiples_basic(amount as int / inc, inc);
        assert(inc * (amount as int / inc) == (amount as int / inc) * inc) by (nonlinear_arith);
    }
    let rounded = amount - amount % context.effective_balance_increment;
    let effective_balance = if rounded < context.max_effective_balance {
        rounded
    } else {
        context.max_effective_balance
    };
    Validator {
        public_key: deposit.data.public_key,
        withdrawal_credentials: deposit.data.withdrawal_credentials,
        effective_balance,
        slashed: false,
        activation_eligibility_epoch: FAR_FUTURE_EPOCH,
        activation_epoch: FAR_FUTURE_EPOCH,
        exit_epoch: FAR_FUTURE_EPOCH,
        withdrawable_epoch: FAR_FUTURE_EPOCH,
    }
}

/// The first of the first `n` validators that holds the public key `key`.
pub open spec fn key_position(validators: Seq<Validator>, key: BlsPublicKey, n: int) -> Option<int>
    decreases n,
{
    if n <= 0 {
        None
    } else {
        match key_position(validators, key, n - 1) {
            Some(i) => Some(i),
            None => if validators[n - 1].public_key == key {
                Some(n - 1)
            } else {
                None
            },
        }
    }
}

/// A key that was found among the first validators is found at the same
/// place among more of them.
pub proof fn lemma_key_position_stays(validators: Seq<Validator>, key: BlsPublicKey, m: int, n: int)
    requires
        0 <= m <= n,
        key_position(validators, key, m) is Some,
    ensures
        key_position(validators, key, n) == key_position(validators, key, m),
    decreases n,
{
    if m < n {
        lemma_key_position_stays(validators, key, m, n - 1);
    }
}

/// The first validator that holds the public key `key`.
pub fn find_validator(state: &BeaconState, key: &BlsPublicKey) -> (r: Option<usize>)
    ensures
        r matches Some(i) ==> key_position(
            state@.validators,
            *key,
            state@.validators.len() as int,
        ) == Some(i as int) && i < state@.validators.len(),
        r is None ==> key_position(state@.validators, *key, state@.validators.len() as int)
            is None,
{
    let mut i: usize = 0;
    while i < state.validators.len()
        invariant
            i <= state.validators.len(),
            key_position(state@.validators, *key, i as int) is None,
        decreases state.validators.len() - i,
    {
        if bytes_equal(&state.validators[i].public_key, key) {
            proof {
                lemma_key_position_stays(
                    state@.validators,
                    *key,
                    i as int + 1,
                    state@.validators.len() as int,
                );
            }
            return Some(i);
        }
        i += 1;
    }
    None
}

/// What a deposit signs: the root of its message under the deposit domain
/// of genesis, which no fork changes.
pub open spec fn deposit_signing_root(data: DepositData, c: Context) -> Root {
    signing_root(
        deposit_message_root(
            DepositMessage {
                public_key: data.public_key,
                withdrawal_credentials: data.withdrawal_credentials,
                amount: data.amount,
            },
        ),
        domain_array(domain_of(DomainType::Deposit, None, None, c)),
    )
}

/// The state with one more validator, as a deposit creates it.
pub open spec fn with_new_validator(s: StateView, data: DepositData, c: Context) -> StateView {
    StateView {
        validators: s.validators.push(validator_of(data, c)),
        balances: s.balances.push(data.amount),
        previous_epoch_participation: s.previous_epoch_participation.push(0u8),
        current_epoch_participation: s.current_epoch_participation.push(0u8),
        inactivity_scores: s.inactivity_scores.push(0u64),
        ..s
    }
}

/// The state after a deposit, before the deposit index moves on. Where a
/// validator holds the deposited key its balance grows by the amount, and
/// no signature is looked at. Where none does, the signature of the deposit
/// must verify and the registry must have room, and a new validator joins.
pub open spec fn deposit_applied(s: StateView, data: DepositData, c: Context) -> Result<
    StateView,
    TransitionError,
> {
    match key_position(s.validators, data.public_key, s.validators.len() as int) {
        Some(i) => increased(s, i, data.amount),
        None => if !signature_valid(
            data.public_key,
            deposit_signing_root(data, c)@,
            data.signature,
        ) {
            Err(
                TransitionError::InvalidOperation(
                    InvalidOperation::Deposit(InvalidDeposit::InvalidSignature(data.signature)),
                ),
            )
        } else if s.validators.len() >= c.validator_registry_limit {
            Err(TransitionError::ListFull { capacity: c.validator_registry_limit })
        } else {
            Ok(with_new_validator(s, data, c))
        },
    }
}

/// The state after a deposit was processed. The proof of the deposit must
/// show its data at the place of the state's deposit index in the deposit
/// tree. The deposit is applied as `deposit_applied` says, and the deposit
/// index moves on by one.
pub open spec fn deposit_processed(
    s: StateView,
    proof: Seq<Bytes32>,
    data: DepositData,
    c: Context,
) -> Result<StateView, TransitionError> {
    if s.eth1_deposit_index > usize::MAX {
        Err(TransitionError::Overflow)
    } else if !valid_merkle_branch(
        deposit_data_root(data),
        proof,
        (DEPOSIT_CONTRACT_TREE_DEPTH + 1) as usize,
        s.eth1_deposit_index as usize,
        s.eth1_data.deposit_root,
    ) {
        Err(
            TransitionError::InvalidOperation(
                InvalidOperation::Deposit(
                    InvalidDeposit::InvalidProof {
                        leaf: deposit_data_root(data),
                        depth: (DEPOSIT_CONTRACT_TREE_DEPTH + 1) as usize,
                        index: s.eth1_deposit_index as usize,
                        root: s.eth1_data.deposit_root,
                    },
                ),
            ),
        )
    } else {
        match deposit_applied(s, data, c) {
            Err(e) => Err(e),
            Ok(t) => match sum_of(s.eth1_deposit_index, 1) {
                Err(e) => Err(e),
                Ok(next) => Ok(StateView { eth1_deposit_index: next, ..t }),
            },
        }
    }
}

/// Checks the proof of a deposit and applies the deposit.
pub fn process_deposit(state: &mut BeaconState, deposit: &Deposit, context: &Context) -> (r: Result<
    (),
    TransitionError,
>)
    requires
        context.valid(),
        wf(old(state)@, *context),
    ensures
        follows(
            old(state)@,
            final(state)@,
            r,
            deposit_processed(old(state)@, deposit.proof@, deposit.data, *context),
        ),
        wf(final(state)@, *context),
        same_finality(old(state)@, final(state)@),
        registry_moves_on(old(state)@, final(state)@),
{
    let leaf = deposit.data.hash_tree_root();
    let depth = DEPOSIT_CONTRACT_TREE_DEPTH + 1;
    if state.eth1_deposit_index > usize::MAX as u64 {
        return Err(TransitionError::Overflow);
    }
    let index = state.eth1_deposit_index as usize;
    let root = state.eth1_data.deposit_root;
    if !is_valid_merkle_branch(&leaf, &deposit.proof, depth, index, &root) {
        return Err(
            TransitionError::InvalidOperation(
                InvalidOperation::Deposit(InvalidDeposit::InvalidProof { leaf, depth, index, root }),
            ),
        );
    }
    let public_key = deposit.data.public_key;
    let amount = deposit.data.amount;
    match find_validator(state, &public_key) {
        Some(i) => {
            let balance = checked_add(state.balances[i], amount)?;
            let next = checked_add(state.eth1_deposit_index, 1)?;
            state.balances[i] = balance;
            state.eth1_deposit_index = next;
        },
        None => {
            let deposit_message = DepositMessage {
                public_key,
                withdrawal_credentials: deposit.data.withdrawal_credentials,
                amount,
            };
            let domain = compute_domain(DomainType::Deposit, None, None, context);
            proof {
                lemma_domain_array(domain);
            }
            let signing_root = compute_signing_root(deposit_message.hash_tree_root(), domain);
            if !verify_signature(&public_key, signing_root.as_slice(), &deposit.data.signature) {
                return Err(
                    TransitionError::InvalidOperation(
                        InvalidOperation::Deposit(
                            InvalidDeposit::InvalidSignature(deposit.data.signature),
                        ),
                    ),
                );
            }
            if state.validators.len() as u64 >= context.validator_registry_limit {
                return Err(TransitionError::ListFull { capacity: context.validator_registry_limit });
            }
            let next = checked_add(state.eth1_deposit_index, 1)?;
            let validator = get_validator_from_deposit(deposit, context);
            state.validators.push(validator);
            state.balances.push(amount);
            state.previous_epoch_participation.push(0u8);
            state.current_epoch_participation.push(0u8);
            state.inactivity_scores.push(0u64);
            state.eth1_deposit_index = next;
        },
    }
    Ok(())
}

/// A deposit for a public key that a validator holds already leaves the
/// registry as it is, adds the amount to the balance of the first validator
/// that holds the key, and moves the deposit index on by exactly one.
pub proof fn lemma_deposit_for_known_key(
    s: StateView,
    proof: Seq<Bytes32>,
    data: DepositData,
    c: Context,
)
    requires
        key_position(s.validators, data.public_key, s.validators.len() as int) is Some,
        deposit_processed(s, proof, data, c) is Ok,
    ensures
        ({
            let t = deposit_processed(s, proof, data, c)->Ok_0;
            let i = key_position(s.validators, data.public_key, s.validators.len() as int)->Some_0;
            &&& t.validators == s.validators
            &&& t.balances == s.balances.update(i, (s.balances[i] + data.amount) as u64)
            &&& s.balances[i] + data.amount <= u64::MAX
            &&& t.eth1_deposit_index == s.eth1_deposit_index + 1
        }),
{
}

/// Every deposit that is accepted moves the deposit index on by exactly
/// one.
pub proof fn lemma_deposit_advances_index(
    s: StateView,
    proof: Seq<Bytes32>,
    data: DepositData,
    c: Context,
)
    requires
        deposit_processed(s, proof, data, c) is Ok,
    ensures
        deposit_processed(s, proof, data, c)->Ok_0.eth1_deposit_index == s.eth1_deposit_index + 1,
{
}

} // verus!
