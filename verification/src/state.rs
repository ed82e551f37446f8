//! The persisted data model: the configuration record and the two input
//! slots, held in a [`Store`] of three independent singleton records.

use vstd::prelude::*;

use crate::error::ContractError;

verus! {

/// The configuration record, written exactly once at initialization.
pub struct State {
    /// The canonical (binary) form of the owner's address.
    pub owner: Vec<u8>,
}

/// Mathematical view of a [`State`].
pub ghost struct StateV {
    pub owner: Seq<u8>,
}

impl View for State {
    type V = StateV;

    open spec fn view(&self) -> StateV {
        StateV { owner: self.owner@ }
    }
}

impl Clone for State {
    fn clone(&self) -> (r: State)
        ensures
            r@ == self@,
    {
        State { owner: self.owner.clone() }
    }
}

/// One accepted submission: who submitted, and the submitted value.
pub struct Input {
    /// The canonical (binary) form of the submitter's address.
    pub address: Vec<u8>,
    /// The submitted 32-bit value.
    pub input: u32,
}

/// Mathematical view of an [`Input`].
pub ghost struct InputV {
    pub address: Seq<u8>,
    pub input: u32,
}

impl View for Input {
    type V = InputV;

    open spec fn view(&self) -> InputV {
        InputV { address: self.address@, input: self.input }
    }
}

impl Clone for Input {
    fn clone(&self) -> (r: Input)
        ensures
            r@ == self@,
    {
        Input { address: self.address.clone(), input: self.input }
    }
}

/// The state store: three named singleton records, each either absent or
/// holding exactly one record, fully overwritten on each write.
pub struct Store {
    pub config: Option<State>,
    pub input_a: Option<Input>,
    pub input_b: Option<Input>,
}

/// Mathematical view of a [`Store`].
pub ghost struct StoreV {
    pub config: Option<StateV>,
    pub input_a: Option<InputV>,
    pub input_b: Option<InputV>,
}

impl View for Store {
    type V = StoreV;

    open spec fn view(&self) -> StoreV {
        StoreV {
            config: match self.config {
                Some(s) => Some(s@),
                None => None,
            },
            input_a: match self.input_a {
                Some(i) => Some(i@),
                None => None,
            },
            input_b: match self.input_b {
                Some(i) => Some(i@),
                None => None,
            },
        }
    }
}

/// The store with the configuration record replaced.
pub open spec fn with_config(s: StoreV, c: StateV) -> StoreV {
    StoreV { config: Some(c), input_a: s.input_a, input_b: s.input_b }
}

/// The store with slot A replaced.
pub open spec fn with_input_a(s: StoreV, i: InputV) -> StoreV {
    StoreV { config: s.config, input_a: Some(i), input_b: s.input_b }
}

/// The store with slot B replaced.
pub open spec fn with_input_b(s: StoreV, i: InputV) -> StoreV {
    StoreV { config: s.config, input_a: s.input_a, input_b: Some(i) }
}

impl Store {
    /// A store with every record absent, as storage looks before any call.
    pub fn new() -> (s: Store)
        ensures
            s@.config is None,
            s@.input_a is None,
            s@.input_b is None,
    {
        Store { config: None, input_a: None, input_b: None }
    }
}

/// Writes the configuration record, fully replacing any prior value.
pub fn config(store: &mut Store, state: State)
    ensures
        final(store)@ == with_config(old(store)@, state@),
{
    store.config = Some(state);
}

/// Loads the configuration record; fails with `NotFound` exactly when it
/// is absent.
pub fn config_read(store: &Store) -> (r: Result<State, ContractError>)
    ensures
        match r {
            Ok(s) => store@.config == Some(s@),
            Err(e) => e is NotFound && store@.config is None,
        },
{
    match &store.config {
        Some(s) => Ok(s.clone()),
        None => Err(ContractError::NotFound),
    }
}

/// Writes slot A, fully replacing any prior value.
pub fn write_input_a(store: &mut Store, input: Input)
    ensures
        final(store)@ == with_input_a(old(store)@, input@),
{
    store.input_a = Some(input);
}

/// Loads slot A; fails with `NotFound` exactly when it is absent.
pub fn read_input_a(store: &Store) -> (r: Result<Input, ContractError>)
    ensures
        match r {
            Ok(i) => store@.input_a == Some(i@),
            Err(e) => e is NotFound && store@.input_a is None,
        },
{
    match &store.input_a {
        Some(i) => Ok(i.clone()),
        None => Err(ContractError::NotFound),
    }
}

/// Writes slot B, fully replacing any prior value.
pub fn write_input_b(store: &mut Store, input: Input)
    ensures
        final(store)@ == with_input_b(old(store)@, input@),
{
    store.input_b = Some(input);
}

/// Loads slot B; fails with `NotFound` exactly when it is absent.
pub fn read_input_b(store: &Store) -> (r: Result<Input, ContractError>)
    ensures
        match r {
            Ok(i) => store@.input_b == Some(i@),
            Err(e) => e is NotFound && store@.input_b is None,
        },
{
    match &store.input_b {
        Some(i) => Ok(i.clone()),
        None => Err(ContractError::NotFound),
    }
}

} // verus!
