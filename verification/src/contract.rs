//! The handler operations: initialization, the two signed submissions, the
//! comparison, and the read-only queries.

use vstd::prelude::*;

use crate::api::{
    addr_canonicalize, addr_humanize, canonical_of, ed25519_verify, human_of, sig_valid,
};
use crate::error::ContractError;
use crate::msg::{
    empty_handle_response, HandleMsg, HandleResponse, InitMsg, InitResponse, InputAResponse,
    InputBResponse, LogAttribute, QueryAnswer, QueryMsg,
};
use crate::state::{
    read_input_a, read_input_b, with_config, with_input_a, with_input_b, write_input_a,
    write_input_b, Input, InputV, State, StateV, Store, StoreV,
};

verus! {

/// What initialization does: on success the configuration record holds the
/// canonical form of the caller's address and nothing else changes; the
/// only failure is the codec rejecting the caller's address text, and then
/// nothing changes at all.
pub open spec fn init_spec(
    pre: StoreV,
    post: StoreV,
    sender: Seq<char>,
    r: Result<InitResponse, ContractError>,
) -> bool {
    match r {
        Ok(resp) => {
            &&& canonical_of(sender) is Some
            &&& post == with_config(pre, StateV { owner: canonical_of(sender)->0 })
            &&& resp.messages@.len() == 0
            &&& resp.log@.len() == 0
        },
        Err(e) => {
            &&& canonical_of(sender) is None
            &&& e is Collaborator
            &&& post == pre
        },
    }
}

/// Creates the configuration record with the caller as owner, overwriting
/// any prior configuration.
pub fn init(store: &mut Store, sender: &str, _msg: InitMsg) -> (r: Result<
    InitResponse,
    ContractError,
>)
    ensures
        init_spec(old(store)@, final(store)@, sender@, r),
{
    let owner = match addr_canonicalize(sender) {
        Ok(c) => c,
        Err(e) => {
            return Err(ContractError::Collaborator(e));
        },
    };
    crate::state::config(store, State { owner });
    Ok(InitResponse { messages: Vec::new(), log: Vec::new() })
}

/// What a signed submission does. Success requires the signature to verify
/// and the codec to accept the caller's address text; the target slot (A
/// when `to_a`, B otherwise) is then fully overwritten with the caller's
/// canonical address and the submitted value, and nothing else changes. On
/// any failure the store is left unchanged: an invalid signature is exactly
/// an authentication failure, and a codec failure is surfaced as a
/// collaborator failure.
///
/// Note that the stored address is the caller's verified identity from the
/// calling context; it is deliberately not derived from, nor tied to, the
/// submitted public key.
pub open spec fn submit_spec(
    pre: StoreV,
    post: StoreV,
    sender: Seq<char>,
    input: u32,
    message: Seq<u8>,
    signature: Seq<u8>,
    pub_key: Seq<u8>,
    r: Result<HandleResponse, ContractError>,
    to_a: bool,
) -> bool {
    match r {
        Ok(resp) => {
            &&& sig_valid(message, signature, pub_key)
            &&& canonical_of(sender) is Some
            &&& post == (if to_a {
                with_input_a(pre, InputV { address: canonical_of(sender)->0, input })
            } else {
                with_input_b(pre, InputV { address: canonical_of(sender)->0, input })
            })
            &&& empty_handle_response(resp)
        },
        Err(e) => {
            &&& post == pre
            &&& e is Auth || e is Collaborator
            &&& (e is Auth <==> !sig_valid(message, signature, pub_key))
            &&& e is Collaborator ==> canonical_of(sender) is None
        },
    }
}

/// Authenticates the submission and, on success, overwrites slot A with the
/// caller's address and the submitted value.
pub fn handle_input_a(
    store: &mut Store,
    sender: &str,
    input: u32,
    message: Vec<u8>,
    signature: Vec<u8>,
    pub_key: Vec<u8>,
) -> (r: Result<HandleResponse, ContractError>)
    ensures
        submit_spec(
            old(store)@,
            final(store)@,
            sender@,
            input,
            message@,
            signature@,
            pub_key@,
            r,
            true,
        ),
{
    if !ed25519_verify(message.as_slice(), signature.as_slice(), pub_key.as_slice()) {
        return Err(ContractError::Auth);
    }
    let address = match addr_canonicalize(sender) {
        Ok(c) => c,
        Err(e) => {
            return Err(ContractError::Collaborator(e));
        },
    };
    write_input_a(store, Input { address, input });
    Ok(HandleResponse { messages: Vec::new(), log: Vec::new(), data: None })
}

/// Authenticates the submission and, on success, overwrites slot B with the
/// caller's address and the submitted value.
pub fn handle_input_b(
    store: &mut Store,
    sender: &str,
    input: u32,
    message: Vec<u8>,
    signature: Vec<u8>,
    pub_key: Vec<u8>,
) -> (r: Result<HandleResponse, ContractError>)
    ensures
        submit_spec(
            old(store)@,
            final(store)@,
            sender@,
            input,
            message@,
            signature@,
            pub_key@,
            r,
            false,
        ),
{
    if !ed25519_verify(message.as_slice(), signature.as_slice(), pub_key.as_slice()) {
        return Err(ContractError::Auth);
    }
    let address = match addr_canonicalize(sender) {
        Ok(c) => c,
        Err(e) => {
            return Err(ContractError::Collaborator(e));
        },
    };
    write_input_b(store, Input { address, input });
    Ok(HandleResponse { messages: Vec::new(), log: Vec::new(), data: None })
}

/// The display form the comparison reports as holding the larger value: A's
/// address when A's value is strictly larger, B's address otherwise — on a
/// tie the winner is B, never A.
pub open spec fn winner_value(
    value_a: u32,
    value_b: u32,
    human_a: Seq<char>,
    human_b: Seq<char>,
) -> Seq<char> {
    if value_a > value_b {
        human_a
    } else {
        human_b
    }
}

/// What the comparison does: with both slots populated and both addresses
/// accepted by the codec, it reports three attributes — A's address, B's
/// address, and the winning address — and changes nothing. It fails with
/// `NotFound` exactly when a slot is absent, and a failure reports no
/// attributes at all.
pub open spec fn compare_spec(s: StoreV, r: Result<HandleResponse, ContractError>) -> bool {
    match r {
        Ok(resp) => {
            &&& s.input_a is Some
            &&& s.input_b is Some
            &&& human_of(s.input_a->0.address) is Some
            &&& human_of(s.input_b->0.address) is Some
            &&& resp.messages@.len() == 0
            &&& resp.data is None
            &&& resp.log@.len() == 3
            &&& resp.log@[0].key@ == "address A"@
            &&& resp.log@[0].value@ == human_of(s.input_a->0.address)->0
            &&& resp.log@[1].key@ == "address B"@
            &&& resp.log@[1].value@ == human_of(s.input_b->0.address)->0
            &&& resp.log@[2].key@ == "larger number belongs to"@
            &&& resp.log@[2].value@ == winner_value(
                s.input_a->0.input,
                s.input_b->0.input,
                human_of(s.input_a->0.address)->0,
                human_of(s.input_b->0.address)->0,
            )
        },
        Err(e) => {
            &&& e is NotFound || e is Collaborator
            &&& (e is NotFound <==> (s.input_a is None || s.input_b is None))
            &&& e is Collaborator ==> (human_of(s.input_a->0.address) is None || human_of(
                s.input_b->0.address,
            ) is None)
        },
    }
}

/// Loads both slots and reports which address holds the larger value; ties
/// favor slot B. Reads only: the store is taken immutably.
pub fn try_compare(store: &Store) -> (r: Result<HandleResponse, ContractError>)
    ensures
        compare_spec(store@, r),
{
    let input_a = match read_input_a(store) {
        Ok(i) => i,
        Err(e) => {
            return Err(e);
        },
    };
    let input_b = match read_input_b(store) {
        Ok(i) => i,
        Err(e) => {
            return Err(e);
        },
    };
    let address_a = match addr_humanize(&input_a.address) {
        Ok(h) => h,
        Err(e) => {
            return Err(ContractError::Collaborator(e));
        },
    };
    let address_b = match addr_humanize(&input_b.address) {
        Ok(h) => h,
        Err(e) => {
            return Err(ContractError::Collaborator(e));
        },
    };
    let result = if input_a.input > input_b.input {
        address_a.clone()
    } else {
        address_b.clone()
    };
    let mut log: Vec<LogAttribute> = Vec::new();
    log.push(LogAttribute { key: "address A".to_owned(), value: address_a });
    log.push(LogAttribute { key: "address B".to_owned(), value: address_b });
    log.push(LogAttribute { key: "larger number belongs to".to_owned(), value: result });
    Ok(HandleResponse { messages: Vec::new(), log, data: None })
}

/// Dispatches a mutating call to exactly one handler operation.
pub fn handle(store: &mut Store, sender: &str, msg: HandleMsg) -> (r: Result<
    HandleResponse,
    ContractError,
>)
    ensures
        (match msg {
            HandleMsg::SetInputA { input, message, signature, pub_key } => submit_spec(
                old(store)@,
                final(store)@,
                sender@,
                input,
                message@,
                signature@,
                pub_key@,
                r,
                true,
            ),
            HandleMsg::SetInputB { input, message, signature, pub_key } => submit_spec(
                old(store)@,
                final(store)@,
                sender@,
                input,
                message@,
                signature@,
                pub_key@,
                r,
                false,
            ),
            HandleMsg::Compare {  } => final(store)@ == old(store)@ && compare_spec(
                old(store)@,
                r,
            ),
        }),
{
    match msg {
        HandleMsg::SetInputA { input, message, signature, pub_key } => handle_input_a(
            store,
            sender,
            input,
            message,
            signature,
            pub_key,
        ),
        HandleMsg::SetInputB { input, message, signature, pub_key } => handle_input_b(
            store,
            sender,
            input,
            message,
            signature,
            pub_key,
        ),
        HandleMsg::Compare {  } => try_compare(store),
    }
}

/// Law: initialization by a caller the codec accepts sets the owner to the
/// canonical form of that caller's address, and has no side effect beyond
/// that one write — both input slots are exactly what they were.
pub proof fn lemma_init_sets_owner(
    pre: StoreV,
    post: StoreV,
    sender: Seq<char>,
    r: Result<InitResponse, ContractError>,
)
    requires
        init_spec(pre, post, sender, r),
        r is Ok,
    ensures
        post.config == Some(StateV { owner: canonical_of(sender)->0 }),
        post.input_a == pre.input_a,
        post.input_b == pre.input_b,
{
}

/// Law: a submission whose signature does not verify is exactly an
/// authentication failure, and leaves the whole store unchanged — the
/// target slot stays absent if it was absent, and keeps its value if it
/// held one.
pub proof fn lemma_invalid_signature_rejected(
    pre: StoreV,
    post: StoreV,
    sender: Seq<char>,
    input: u32,
    message: Seq<u8>,
    signature: Seq<u8>,
    pub_key: Seq<u8>,
    r: Result<HandleResponse, ContractError>,
    to_a: bool,
)
    requires
        submit_spec(pre, post, sender, input, message, signature, pub_key, r, to_a),
        !sig_valid(message, signature, pub_key),
    ensures
        post == pre,
        r matches Err(e) && e is Auth,
{
}

/// Law: a successful submission fully replaces the target slot; the store
/// afterward does not depend on what the slot held before, so a prior
/// value or address is no longer observable through any read.
pub proof fn lemma_submit_replaces_a(pre1: StoreV, pre2: StoreV, i: InputV)
    requires
        pre1.config == pre2.config,
        pre1.input_b == pre2.input_b,
    ensures
        with_input_a(pre1, i) == with_input_a(pre2, i),
{
}

/// Law: as [`lemma_submit_replaces_a`], for slot B.
pub proof fn lemma_submit_replaces_b(pre1: StoreV, pre2: StoreV, i: InputV)
    requires
        pre1.config == pre2.config,
        pre1.input_a == pre2.input_a,
    ensures
        with_input_b(pre1, i) == with_input_b(pre2, i),
{
}

/// Law: when the two stored values are equal, the comparison reports slot
/// B's address — a tie favors B, never A.
pub proof fn lemma_tie_favors_b(
    value_a: u32,
    value_b: u32,
    human_a: Seq<char>,
    human_b: Seq<char>,
)
    requires
        value_a == value_b,
    ensures
        winner_value(value_a, value_b, human_a, human_b) == human_b,
{
}

/// Law: before both slots are populated the comparison fails with
/// `NotFound`; a failed comparison carries no response, so it emits no log
/// attributes.
pub proof fn lemma_compare_needs_both(s: StoreV, r: Result<HandleResponse, ContractError>)
    requires
        compare_spec(s, r),
        s.input_a is None || s.input_b is None,
    ensures
        r matches Err(e) && e is NotFound,
{
}

/// What a successful read of a slot reports: the stored value, and the
/// stored address in display form.
pub open spec fn query_slot_ok(slot: Option<InputV>, value: u32, address: Seq<char>) -> bool {
    &&& slot is Some
    &&& value == slot->0.input
    &&& human_of(slot->0.address) == Some(address)
}

/// Exactly when a read of a slot fails: `NotFound` when the slot is absent,
/// a collaborator failure when the codec rejects the stored address.
pub open spec fn query_slot_err(slot: Option<InputV>, e: ContractError) -> bool {
    &&& e is NotFound || e is Collaborator
    &&& (e is NotFound <==> slot is None)
    &&& e is Collaborator ==> human_of(slot->0.address) is None
}

/// Reports slot A's value and address; fails with `NotFound` when the slot
/// was never written.
pub fn query_input_a(store: &Store) -> (r: Result<InputAResponse, ContractError>)
    ensures
        match r {
            Ok(resp) => query_slot_ok(store@.input_a, resp.input_a, resp.address_a@),
            Err(e) => query_slot_err(store@.input_a, e),
        },
{
    let input = match read_input_a(store) {
        Ok(i) => i,
        Err(e) => {
            return Err(e);
        },
    };
    let address_a = match addr_humanize(&input.address) {
        Ok(h) => h,
        Err(e) => {
            return Err(ContractError::Collaborator(e));
        },
    };
    Ok(InputAResponse { input_a: input.input, address_a })
}

/// Reports slot B's value and address; fails with `NotFound` when the slot
/// was never written.
pub fn query_input_b(store: &Store) -> (r: Result<InputBResponse, ContractError>)
    ensures
        match r {
            Ok(resp) => query_slot_ok(store@.input_b, resp.input_b, resp.address_b@),
            Err(e) => query_slot_err(store@.input_b, e),
        },
{
    let input = match read_input_b(store) {
        Ok(i) => i,
        Err(e) => {
            return Err(e);
        },
    };
    let address_b = match addr_humanize(&input.address) {
        Ok(h) => h,
        Err(e) => {
            return Err(ContractError::Collaborator(e));
        },
    };
    Ok(InputBResponse { input_b: input.input, address_b })
}

/// Dispatches a read-only call to exactly one query operation.
pub fn query(store: &Store, msg: QueryMsg) -> (r: Result<QueryAnswer, ContractError>)
    ensures
        (match msg {
            QueryMsg::InputA {  } => match r {
                Ok(ans) => ans matches QueryAnswer::InputA(resp) && query_slot_ok(
                    store@.input_a,
                    resp.input_a,
                    resp.address_a@,
                ),
                Err(e) => query_slot_err(store@.input_a, e),
            },
            QueryMsg::InputB {  } => match r {
                Ok(ans) => ans matches QueryAnswer::InputB(resp) && query_slot_ok(
                    store@.input_b,
                    resp.input_b,
                    resp.address_b@,
                ),
                Err(e) => query_slot_err(store@.input_b, e),
            },
        }),
{
    match msg {
        QueryMsg::InputA {  } => match query_input_a(store) {
            Ok(resp) => Ok(QueryAnswer::InputA(resp)),
            Err(e) => Err(e),
        },
        QueryMsg::InputB {  } => match query_input_b(store) {
            Ok(resp) => Ok(QueryAnswer::InputB(resp)),
            Err(e) => Err(e),
        },
    }
}

} // verus!
