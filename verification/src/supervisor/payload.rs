//! Payloads of the spawn request and of its result.

use vstd::prelude::*;
use crate::bytes;
use crate::bytes::{
    array_at, copy_bytes, is_all_zero, put_bytes, put_u16, put_u32, put_u64, u16_at, u32_at,
    u64_at,
};
use crate::supervisor::deadline::{SupervisorDeadline, SupervisorWireError};
use crate::supervisor::peer::OpaqueSessionHandle;
use crate::supervisor::record::{HEADER_LEN, MAX_SUPERVISOR_RECORD_BYTES};
use crate::supervisor::target;
use crate::supervisor::target::{
    EntryModel, RequestModel, SpawnRequest, TargetEnvironmentEntry, MAX_ARGUMENTS,
    MAX_COMPONENT_BYTES, MAX_ENVIRONMENT, MAX_POLICY_ID_BYTES,
};

verus! {

/// Bytes before the policy identifier.
pub const SPAWN_PREFIX_LEN: usize = 16;

/// Bytes of a spawn result.
pub const SPAWN_RESULT_LEN: usize = 40;

/// A component as it stands in a payload: its length, then its bytes.
pub open spec fn component_bytes(component: Seq<u8>) -> Seq<u8> {
    bytes::le16(component.len() as u16) + component
}

/// The components of a list, one after another.
pub open spec fn components_bytes(list: Seq<Seq<u8>>) -> Seq<u8>
    decreases list.len(),
{
    if list.len() == 0 {
        seq![]
    } else {
        components_bytes(list.drop_last()) + component_bytes(list.last())
    }
}

/// The entries of an environment, one after another.
pub open spec fn entries_bytes(list: Seq<EntryModel>) -> Seq<u8>
    decreases list.len(),
{
    if list.len() == 0 {
        seq![]
    } else {
        entries_bytes(list.drop_last()) + component_bytes(list.last().key) + component_bytes(
            list.last().value,
        )
    }
}

/// The payload of a spawn request.
pub open spec fn spawn_bytes(request: RequestModel) -> Seq<u8> {
    bytes::le64(request.deadline.0) + bytes::le16(request.policy_id.len() as u16)
        + bytes::le16(request.arguments.len() as u16)
        + bytes::le16(request.environment.len() as u16) + bytes::le16(0) + request.policy_id
        + components_bytes(request.arguments) + entries_bytes(request.environment)
}

/// One component and what follows it, or why it cannot be read.
pub open spec fn parsed_component(bytes: Seq<u8>) -> Result<
    (Seq<u8>, Seq<u8>),
    SupervisorWireError,
> {
    let length = bytes::le16_at(bytes, 0);
    if bytes.len() < 2 {
        Err(SupervisorWireError::Malformed)
    } else if length > MAX_COMPONENT_BYTES {
        Err(SupervisorWireError::LimitExceeded)
    } else if bytes.len() < 2 + length {
        Err(SupervisorWireError::Malformed)
    } else {
        Ok((bytes.subrange(2, 2 + length), bytes.subrange(2 + length, bytes.len() as int)))
    }
}

/// The first `count` components and what follows them.
pub open spec fn parsed_components(bytes: Seq<u8>, count: nat) -> Result<
    (Seq<Seq<u8>>, Seq<u8>),
    SupervisorWireError,
>
    decreases count,
{
    if count == 0 {
        Ok((seq![], bytes))
    } else {
        match parsed_components(bytes, (count - 1) as nat) {
            Err(error) => Err(error),
            Ok((list, rest)) => match parsed_component(rest) {
                Err(error) => Err(error),
                Ok((component, rest)) => Ok((list.push(component), rest)),
            },
        }
    }
}

/// One entry and what follows it.
pub open spec fn parsed_entry(bytes: Seq<u8>) -> Result<
    (EntryModel, Seq<u8>),
    SupervisorWireError,
> {
    match parsed_component(bytes) {
        Err(error) => Err(error),
        Ok((key, rest)) => match parsed_component(rest) {
            Err(error) => Err(error),
            Ok((value, rest)) => {
                let entry = EntryModel { key, value };
                if target::valid_entry(entry) {
                    Ok((entry, rest))
                } else {
                    Err(SupervisorWireError::InvalidTargetInput)
                }
            },
        },
    }
}

/// The first `count` entries and what follows them.
pub open spec fn parsed_entries(bytes: Seq<u8>, count: nat) -> Result<
    (Seq<EntryModel>, Seq<u8>),
    SupervisorWireError,
>
    decreases count,
{
    if count == 0 {
        Ok((seq![], bytes))
    } else {
        match parsed_entries(bytes, (count - 1) as nat) {
            Err(error) => Err(error),
            Ok((list, rest)) => match parsed_entry(rest) {
                Err(error) => Err(error),
                Ok((entry, rest)) => Ok((list.push(entry), rest)),
            },
        }
    }
}

/// Whether the four counts of the prefix are in range.
pub open spec fn prefix_in_range(payload: Seq<u8>) -> bool {
    &&& bytes::le16_at(payload, 14) == 0
    &&& bytes::le16_at(payload, 8) <= MAX_POLICY_ID_BYTES
    &&& bytes::le16_at(payload, 10) <= MAX_ARGUMENTS
    &&& bytes::le16_at(payload, 12) <= MAX_ENVIRONMENT
}

/// The request that a payload holds, or why it is refused. The prefix is judged before anything
/// that follows it, and the request as a whole only once nothing is left over.
pub open spec fn parsed_spawn(payload: Seq<u8>) -> Result<RequestModel, SupervisorWireError> {
    let policy_len = bytes::le16_at(payload, 8);
    let body = payload.subrange(SPAWN_PREFIX_LEN as int, payload.len() as int);
    if payload.len() < SPAWN_PREFIX_LEN {
        Err(SupervisorWireError::Malformed)
    } else if !prefix_in_range(payload) {
        Err(SupervisorWireError::LimitExceeded)
    } else if body.len() < policy_len {
        Err(SupervisorWireError::Malformed)
    } else {
        match parsed_components(
            body.subrange(policy_len as int, body.len() as int),
            bytes::le16_at(payload, 10) as nat,
        ) {
            Err(error) => Err(error),
            Ok((arguments, rest)) => match parsed_entries(
                rest,
                bytes::le16_at(payload, 12) as nat,
            ) {
                Err(error) => Err(error),
                Ok((environment, rest)) => if rest.len() > 0 {
                    Err(SupervisorWireError::Malformed)
                } else {
                    target::checked_request(
                        RequestModel {
                            deadline: SupervisorDeadline(bytes::le64_at(payload, 0)),
                            policy_id: body.subrange(0, policy_len as int),
                            arguments,
                            environment,
                        },
                    )
                },
            },
        }
    }
}

/// A reader that walks through a payload.
pub struct PayloadCursor<'a> {
    pub remaining: &'a [u8],
}

impl<'a> PayloadCursor<'a> {
    /// Starts at the first byte.
    pub fn new(bytes: &'a [u8]) -> (r: PayloadCursor<'a>)
        ensures
            r.remaining@ == bytes@,
    {
        PayloadCursor { remaining: bytes }
    }

    /// Takes `count` bytes; where there are fewer, takes none.
    pub fn take(&mut self, count: usize) -> (r: Result<&'a [u8], SupervisorWireError>)
        ensures
            match r {
                Ok(value) => {
                    &&& count <= old(self).remaining@.len()
                    &&& value@ == old(self).remaining@.subrange(0, count as int)
                    &&& final(self).remaining@ == old(self).remaining@.subrange(
                        count as int,
                        old(self).remaining@.len() as int,
                    )
                },
                Err(error) => {
                    &&& error == SupervisorWireError::Malformed
                    &&& count > old(self).remaining@.len()
                    &&& final(self).remaining@ == old(self).remaining@
                },
            },
    {
        if count > self.remaining.len() {
            return Err(SupervisorWireError::Malformed);
        }
        let value = vstd::slice::slice_subrange(self.remaining, 0, count);
        self.remaining = vstd::slice::slice_subrange(self.remaining, count, self.remaining.len());
        Ok(value)
    }

    /// Takes one component. One that is cut off or too long costs its length, if that is there.
    pub fn component(&mut self) -> (r: Result<&'a [u8], SupervisorWireError>)
        ensures
            match (r, parsed_component(old(self).remaining@)) {
                (Ok(value), Ok((component, rest))) => value@ == component
                    && final(self).remaining@ == rest,
                (Err(error), Err(expected)) => {
                    &&& error == expected
                    &&& final(self).remaining@ == (if old(self).remaining@.len() < 2 {
                        old(self).remaining@
                    } else {
                        old(self).remaining@.subrange(2, old(self).remaining@.len() as int)
                    })
                },
                _ => false,
            },
    {
        let ghost start = self.remaining@;
        let prefix = match self.take(2) {
            Ok(prefix) => prefix,
            Err(error) => {
                return Err(error);
            },
        };
        proof {
            bytes::lemma_le_at_subrange(start, 0, 2, 0);
        }
        let length: u16 = match u16_at(prefix, 0) {
            Some(length) => length,
            None => {
                return Err(SupervisorWireError::Malformed);
            },
        };
        if length as usize > MAX_COMPONENT_BYTES {
            return Err(SupervisorWireError::LimitExceeded);
        }
        let ghost middle = self.remaining@;
        let r = self.take(length as usize);
        proof {
            if r is Ok {
                assert(middle.subrange(0, length as int) =~= start.subrange(2, 2 + length));
                assert(middle.subrange(length as int, middle.len() as int) =~= start.subrange(
                    2 + length,
                    start.len() as int,
                ));
            }
        }
        r
    }

    /// Whether nothing is left.
    pub fn is_empty(&self) -> (r: bool)
        ensures
            r == (self.remaining@.len() == 0),
    {
        self.remaining.len() == 0
    }
}

/// Reads the request out of a payload.
pub fn decode_spawn_payload(payload: &[u8]) -> (r: Result<SpawnRequest, SupervisorWireError>)
    ensures
        match (r, parsed_spawn(payload@)) {
            (Ok(request), Ok(model)) => request@ == model && target::valid_request(model),
            (Err(error), Err(expected)) => error == expected,
            _ => false,
        },
{
    if payload.len() < SPAWN_PREFIX_LEN {
        return Err(SupervisorWireError::Malformed);
    }
    let (deadline, policy_len, argument_count, environment_count, reserved) = match (
        u64_at(payload, 0),
        u16_at(payload, 8),
        u16_at(payload, 10),
        u16_at(payload, 12),
        u16_at(payload, 14),
    ) {
        (Some(a), Some(b), Some(c), Some(d), Some(e)) => (a, b, c, d, e),
        _ => {
            return Err(SupervisorWireError::Malformed);
        },
    };
    if reserved != 0 || policy_len as usize > MAX_POLICY_ID_BYTES || argument_count as usize
        > MAX_ARGUMENTS || environment_count as usize > MAX_ENVIRONMENT {
        return Err(SupervisorWireError::LimitExceeded);
    }
    let ghost body = payload@.subrange(SPAWN_PREFIX_LEN as int, payload@.len() as int);
    let mut cursor = PayloadCursor::new(
        vstd::slice::slice_subrange(payload, SPAWN_PREFIX_LEN, payload.len()),
    );
    let policy_id = match cursor.take(policy_len as usize) {
        Ok(policy_id) => copy_bytes(policy_id),
        Err(error) => {
            return Err(error);
        },
    };
    let ghost from = cursor.remaining@;
    let mut arguments: Vec<Vec<u8>> = Vec::new();
    assert(bytes::strings(arguments@) =~= Seq::<Seq<u8>>::empty());
    let mut i: u16 = 0;
    while i < argument_count
        invariant
            i <= argument_count,
            parsed_components(from, i as nat) == Ok::<(Seq<Seq<u8>>, Seq<u8>), SupervisorWireError>(
                (bytes::strings(arguments@), cursor.remaining@),
            ),
            from == body.subrange(policy_len as int, body.len() as int),
            body == payload@.subrange(SPAWN_PREFIX_LEN as int, payload@.len() as int),
            payload@.len() >= SPAWN_PREFIX_LEN,
            prefix_in_range(payload@),
            body.len() >= policy_len,
            policy_len == bytes::le16_at(payload@, 8),
            argument_count == bytes::le16_at(payload@, 10),
        decreases argument_count - i,
    {
        match cursor.component() {
            Ok(component) => {
                let ghost before = bytes::strings(arguments@);
                arguments.push(copy_bytes(component));
                assert(bytes::strings(arguments@) =~= before.push(component@));
            },
            Err(error) => {
                proof {
                    assert(parsed_components(from, (i + 1) as nat) is Err);
                    lemma_components_stop(from, (i + 1) as nat, argument_count as nat);
                }
                return Err(error);
            },
        }
        i += 1;
    }
    let ghost middle = cursor.remaining@;
    let mut environment: Vec<TargetEnvironmentEntry> = Vec::new();
    assert(target::entries(environment@) =~= Seq::<EntryModel>::empty());
    let mut j: u16 = 0;
    while j < environment_count
        invariant
            j <= environment_count,
            parsed_entries(middle, j as nat)
                == Ok::<(Seq<EntryModel>, Seq<u8>), SupervisorWireError>(
                (target::entries(environment@), cursor.remaining@),
            ),
            target::valid_environment(target::entries(environment@)),
            parsed_components(from, argument_count as nat) == Ok::<
                (Seq<Seq<u8>>, Seq<u8>),
                SupervisorWireError,
            >((bytes::strings(arguments@), middle)),
            from == body.subrange(policy_len as int, body.len() as int),
            body == payload@.subrange(SPAWN_PREFIX_LEN as int, payload@.len() as int),
            payload@.len() >= SPAWN_PREFIX_LEN,
            prefix_in_range(payload@),
            body.len() >= policy_len,
            policy_len == bytes::le16_at(payload@, 8),
            argument_count == bytes::le16_at(payload@, 10),
            environment_count == bytes::le16_at(payload@, 12),
        decreases environment_count - j,
    {
        let ghost before = target::entries(environment@);
        let entry = match decode_entry(&mut cursor) {
            Ok(entry) => entry,
            Err(error) => {
                proof {
                    assert(parsed_entries(middle, (j + 1) as nat) is Err);
                    lemma_entries_stop(middle, (j + 1) as nat, environment_count as nat);
                }
                return Err(error);
            },
        };
        environment.push(entry);
        assert(target::entries(environment@) =~= before.push(entry@));
        j += 1;
    }
    if !cursor.is_empty() {
        return Err(SupervisorWireError::Malformed);
    }
    SpawnRequest::new(SupervisorDeadline::from_wire(deadline), policy_id, arguments, environment)
}

/// Takes one environment entry.
fn decode_entry<'a>(cursor: &mut PayloadCursor<'a>) -> (r: Result<
    TargetEnvironmentEntry,
    SupervisorWireError,
>)
    ensures
        match (r, parsed_entry(old(cursor).remaining@)) {
            (Ok(value), Ok((entry, rest))) => {
                &&& value@ == entry
                &&& target::valid_entry(entry)
                &&& final(cursor).remaining@ == rest
            },
            (Err(error), Err(expected)) => error == expected,
            _ => false,
        },
{
    let key = match cursor.component() {
        Ok(key) => copy_bytes(key),
        Err(error) => {
            return Err(error);
        },
    };
    let value = match cursor.component() {
        Ok(value) => copy_bytes(value),
        Err(error) => {
            return Err(error);
        },
    };
    TargetEnvironmentEntry::new(key, value)
}

/// A failure among the first components is the failure of the list.
proof fn lemma_components_stop(bytes: Seq<u8>, at: nat, count: nat)
    requires
        at <= count,
        parsed_components(bytes, at) is Err,
    ensures
        parsed_components(bytes, count) == parsed_components(bytes, at),
    decreases count,
{
    if at < count {
        lemma_components_stop(bytes, at, (count - 1) as nat);
    }
}

/// A failure among the first entries is the failure of the list.
proof fn lemma_entries_stop(bytes: Seq<u8>, at: nat, count: nat)
    requires
        at <= count,
        parsed_entries(bytes, at) is Err,
    ensures
        parsed_entries(bytes, count) == parsed_entries(bytes, at),
    decreases count,
{
    if at < count {
        lemma_entries_stop(bytes, at, (count - 1) as nat);
    }
}

/// Whether a component fits its length field.
pub open spec fn fits(component: Seq<u8>) -> bool {
    component.len() <= u16::MAX
}

/// Whether every part of a request fits its length field.
pub open spec fn request_fits(request: RequestModel) -> bool {
    &&& request.policy_id.len() <= u16::MAX
    &&& request.arguments.len() <= u16::MAX
    &&& request.environment.len() <= u16::MAX
    &&& forall|i: int| 0 <= i < request.arguments.len() ==> fits(#[trigger] request.arguments[i])
    &&& forall|i: int|
        0 <= i < request.environment.len() ==> fits((#[trigger] request.environment[i]).key)
            && fits(request.environment[i].value)
}

/// Appends one component; one that does not fit its length field is refused.
pub fn push_component(payload: &mut Vec<u8>, component: &[u8]) -> (r: Result<
    (),
    SupervisorWireError,
>)
    ensures
        match r {
            Ok(()) => fits(component@) && final(payload)@ == old(payload)@ + component_bytes(
                component@,
            ),
            Err(error) => {
                &&& error == SupervisorWireError::LimitExceeded
                &&& !fits(component@)
                &&& final(payload)@ == old(payload)@
            },
        },
{
    if component.len() > 0xffff {
        return Err(SupervisorWireError::LimitExceeded);
    }
    let ghost before = payload@;
    put_u16(payload, component.len() as u16);
    put_bytes(payload, component);
    assert(payload@ =~= before + component_bytes(component@));
    Ok(())
}

/// Writes the payload of a request. What does not fit a length field or a record is refused.
pub fn encode_spawn_payload(request: &SpawnRequest) -> (r: Result<Vec<u8>, SupervisorWireError>)
    ensures
        match r {
            Ok(payload) => {
                &&& request_fits(request@)
                &&& HEADER_LEN + spawn_bytes(request@).len() <= MAX_SUPERVISOR_RECORD_BYTES
                &&& payload@ == spawn_bytes(request@)
            },
            Err(error) => {
                &&& error == SupervisorWireError::LimitExceeded
                &&& !request_fits(request@) || HEADER_LEN + spawn_bytes(request@).len()
                    > MAX_SUPERVISOR_RECORD_BYTES
            },
        },
{
    let policy_id = request.policy_id();
    let arguments = request.arguments();
    let environment = request.environment();
    if policy_id.len() > 0xffff || arguments.len() > 0xffff || environment.len() > 0xffff {
        return Err(SupervisorWireError::LimitExceeded);
    }
    let mut payload: Vec<u8> = Vec::new();
    put_u64(&mut payload, request.deadline().wire_value());
    put_u16(&mut payload, policy_id.len() as u16);
    put_u16(&mut payload, arguments.len() as u16);
    put_u16(&mut payload, environment.len() as u16);
    put_u16(&mut payload, 0);
    put_bytes(&mut payload, policy_id);
    let ghost head = bytes::le64(request@.deadline.0)
        + bytes::le16(request@.policy_id.len() as u16)
        + bytes::le16(request@.arguments.len() as u16)
        + bytes::le16(request@.environment.len() as u16) + bytes::le16(0)
        + request@.policy_id;
    assert(payload@ =~= head);
    assert(bytes::strings(arguments@).take(0) =~= Seq::<Seq<u8>>::empty());
    assert(payload@ =~= head + components_bytes(bytes::strings(arguments@).take(0)));
    let mut i: usize = 0;
    while i < arguments.len()
        invariant
            i <= arguments@.len(),
            bytes::strings(arguments@) == request@.arguments,
            payload@ == head + components_bytes(request@.arguments.take(i as int)),
            forall|k: int| 0 <= k < i ==> fits(#[trigger] request@.arguments[k]),
        decreases arguments@.len() - i,
    {
        assert(arguments@[i as int]@ == request@.arguments[i as int]);
        match push_component(&mut payload, &arguments[i]) {
            Ok(()) => {},
            Err(error) => {
                return Err(error);
            },
        }
        proof {
            let next = request@.arguments.take(i + 1);
            assert(next.drop_last() =~= request@.arguments.take(i as int));
            assert(next.last() == request@.arguments[i as int]);
            assert(payload@ =~= head + components_bytes(next));
        }
        i += 1;
    }
    assert(request@.arguments.take(i as int) =~= request@.arguments);
    let ghost middle = payload@;
    assert(target::entries(environment@).take(0) =~= Seq::<EntryModel>::empty());
    assert(payload@ =~= middle + entries_bytes(target::entries(environment@).take(0)));
    let mut j: usize = 0;
    while j < environment.len()
        invariant
            j <= environment@.len(),
            target::entries(environment@) == request@.environment,
            payload@ == middle + entries_bytes(request@.environment.take(j as int)),
            forall|k: int|
                0 <= k < j ==> fits((#[trigger] request@.environment[k]).key) && fits(
                    request@.environment[k].value,
                ),
        decreases environment@.len() - j,
    {
        let ghost before = payload@;
        assert(environment@[j as int]@ == request@.environment[j as int]);
        match push_component(&mut payload, environment[j].key()) {
            Ok(()) => {},
            Err(error) => {
                return Err(error);
            },
        }
        match push_component(&mut payload, environment[j].value()) {
            Ok(()) => {},
            Err(error) => {
                return Err(error);
            },
        }
        proof {
            let next = request@.environment.take(j + 1);
            assert(next.drop_last() =~= request@.environment.take(j as int));
            assert(next.last() == request@.environment[j as int]);
            assert(payload@ =~= middle + entries_bytes(next));
        }
        j += 1;
    }
    assert(request@.environment.take(j as int) =~= request@.environment);
    assert(payload@ =~= spawn_bytes(request@));
    if payload.len() > MAX_SUPERVISOR_RECORD_BYTES - HEADER_LEN {
        return Err(SupervisorWireError::LimitExceeded);
    }
    Ok(payload)
}

/// One component reads back, and what follows it is left.
proof fn lemma_component_round_trip(component: Seq<u8>, tail: Seq<u8>)
    requires
        component.len() <= MAX_COMPONENT_BYTES,
    ensures
        parsed_component(component_bytes(component) + tail) == Ok::<
            (Seq<u8>, Seq<u8>),
            SupervisorWireError,
        >((component, tail)),
{
    let length = component.len() as u16;
    let bytes = component_bytes(component) + tail;
    bytes::lemma_le16(length);
    assert(bytes.subrange(0, 2) =~= bytes::le16(length));
    bytes::lemma_field(bytes, 0);
    assert(bytes.subrange(2, 2 + length) =~= component);
    assert(bytes.subrange(2 + length, bytes.len() as int) =~= tail);
}

/// A component that is read is the one form of its bytes.
proof fn lemma_component_canonical(bytes: Seq<u8>)
    requires
        parsed_component(bytes) is Ok,
    ensures
        parsed_component(bytes) matches Ok((component, tail)) && bytes == component_bytes(component)
            + tail && component.len() <= MAX_COMPONENT_BYTES,
{
    let (component, tail) = parsed_component(bytes)->Ok_0;
    bytes::lemma_le16_at(bytes, 0);
    assert(bytes =~= component_bytes(component) + tail);
}

/// A list of components reads back.
proof fn lemma_components_round_trip(list: Seq<Seq<u8>>, tail: Seq<u8>)
    requires
        forall|i: int| 0 <= i < list.len() ==> (#[trigger] list[i]).len() <= MAX_COMPONENT_BYTES,
    ensures
        parsed_components(components_bytes(list) + tail, list.len()) == Ok::<
            (Seq<Seq<u8>>, Seq<u8>),
            SupervisorWireError,
        >((list, tail)),
    decreases list.len(),
{
    if list.len() == 0 {
        assert(components_bytes(list) + tail =~= tail);
        assert(list =~= seq![]);
    } else {
        let rest = component_bytes(list.last()) + tail;
        lemma_components_round_trip(list.drop_last(), rest);
        lemma_component_round_trip(list.last(), tail);
        assert(components_bytes(list) + tail =~= components_bytes(list.drop_last()) + rest);
        assert(list =~= list.drop_last().push(list.last()));
    }
}

/// A list of components that is read is the one form of its bytes.
proof fn lemma_components_canonical(bytes: Seq<u8>, count: nat)
    requires
        parsed_components(bytes, count) is Ok,
    ensures
        parsed_components(bytes, count) matches Ok((list, tail)) && list.len() == count && bytes
            == components_bytes(list) + tail && forall|i: int|
            0 <= i < list.len() ==> (#[trigger] list[i]).len() <= MAX_COMPONENT_BYTES,
    decreases count,
{
    if count == 0 {
        assert(bytes =~= components_bytes(seq![]) + bytes);
    } else {
        lemma_components_canonical(bytes, (count - 1) as nat);
        let (before, rest) = parsed_components(bytes, (count - 1) as nat)->Ok_0;
        lemma_component_canonical(rest);
        let (component, tail) = parsed_component(rest)->Ok_0;
        let list = before.push(component);
        assert(list.drop_last() =~= before);
        assert(bytes =~= components_bytes(list) + tail);
    }
}

/// A list of entries reads back.
proof fn lemma_entries_round_trip(list: Seq<EntryModel>, tail: Seq<u8>)
    requires
        target::valid_environment(list),
    ensures
        parsed_entries(entries_bytes(list) + tail, list.len()) == Ok::<
            (Seq<EntryModel>, Seq<u8>),
            SupervisorWireError,
        >((list, tail)),
    decreases list.len(),
{
    if list.len() == 0 {
        assert(entries_bytes(list) + tail =~= tail);
        assert(list =~= seq![]);
    } else {
        let last = list.last();
        assert(target::valid_entry(list[list.len() - 1]));
        let rest = component_bytes(last.key) + (component_bytes(last.value) + tail);
        assert(target::valid_environment(list.drop_last())) by {
            assert forall|i: int| 0 <= i < list.drop_last().len() implies target::valid_entry(
                #[trigger] list.drop_last()[i],
            ) by {
                assert(target::valid_entry(list[i]));
            }
        }
        lemma_entries_round_trip(list.drop_last(), rest);
        lemma_component_round_trip(last.key, component_bytes(last.value) + tail);
        lemma_component_round_trip(last.value, tail);
        assert(entries_bytes(list) + tail =~= entries_bytes(list.drop_last()) + rest);
        assert((EntryModel { key: last.key, value: last.value }) == last);
        assert(list =~= list.drop_last().push(last));
    }
}

/// A list of entries that is read is the one form of its bytes.
proof fn lemma_entries_canonical(bytes: Seq<u8>, count: nat)
    requires
        parsed_entries(bytes, count) is Ok,
    ensures
        parsed_entries(bytes, count) matches Ok((list, tail)) && list.len() == count && bytes
            == entries_bytes(list) + tail && target::valid_environment(list),
    decreases count,
{
    if count == 0 {
        assert(bytes =~= entries_bytes(seq![]) + bytes);
    } else {
        lemma_entries_canonical(bytes, (count - 1) as nat);
        let (before, rest) = parsed_entries(bytes, (count - 1) as nat)->Ok_0;
        lemma_component_canonical(rest);
        let (key, middle) = parsed_component(rest)->Ok_0;
        lemma_component_canonical(middle);
        let (value, tail) = parsed_component(middle)->Ok_0;
        let list = before.push(EntryModel { key, value });
        assert(list.drop_last() =~= before);
        assert(list.last() == (EntryModel { key, value }));
        assert(bytes =~= entries_bytes(list) + tail);
    }
}

/// A canonical request reads back from its payload.
pub proof fn law_spawn_round_trip(request: RequestModel)
    requires
        target::valid_request(request),
    ensures
        parsed_spawn(spawn_bytes(request)) == Ok::<RequestModel, SupervisorWireError>(request),
{
    let payload = spawn_bytes(request);
    let policy_len = request.policy_id.len() as u16;
    let argument_count = request.arguments.len() as u16;
    let environment_count = request.environment.len() as u16;
    bytes::lemma_le64(request.deadline.0);
    bytes::lemma_le16(policy_len);
    bytes::lemma_le16(argument_count);
    bytes::lemma_le16(environment_count);
    bytes::lemma_le16(0);
    assert(payload.subrange(0, 8) =~= bytes::le64(request.deadline.0));
    assert(payload.subrange(8, 10) =~= bytes::le16(policy_len));
    assert(payload.subrange(10, 12) =~= bytes::le16(argument_count));
    assert(payload.subrange(12, 14) =~= bytes::le16(environment_count));
    assert(payload.subrange(14, 16) =~= bytes::le16(0));
    bytes::lemma_field(payload, 0);
    bytes::lemma_field(payload, 8);
    bytes::lemma_field(payload, 10);
    bytes::lemma_field(payload, 12);
    bytes::lemma_field(payload, 14);
    let body = payload.subrange(16, payload.len() as int);
    assert(body.subrange(0, policy_len as int) =~= request.policy_id);
    let rest = body.subrange(policy_len as int, body.len() as int);
    assert(rest =~= components_bytes(request.arguments) + entries_bytes(request.environment));
    assert forall|i: int| 0 <= i < request.arguments.len() implies (
    #[trigger] request.arguments[i]).len() <= MAX_COMPONENT_BYTES by {
        assert(target::valid_component(request.arguments[i]));
    }
    lemma_components_round_trip(request.arguments, entries_bytes(request.environment));
    assert(entries_bytes(request.environment) =~= entries_bytes(request.environment) + seq![]);
    lemma_entries_round_trip(request.environment, seq![]);
}

/// A payload that is accepted is the one form of a canonical request.
pub proof fn law_spawn_is_canonical(payload: Seq<u8>)
    requires
        parsed_spawn(payload) is Ok,
    ensures
        parsed_spawn(payload) matches Ok(request) && target::valid_request(request) && payload
            == spawn_bytes(request),
{
    let request = parsed_spawn(payload)->Ok_0;
    let policy_len = bytes::le16_at(payload, 8);
    let body = payload.subrange(16, payload.len() as int);
    let from = body.subrange(policy_len as int, body.len() as int);
    lemma_components_canonical(from, bytes::le16_at(payload, 10) as nat);
    let (arguments, middle) = parsed_components(from, bytes::le16_at(payload, 10) as nat)->Ok_0;
    lemma_entries_canonical(middle, bytes::le16_at(payload, 12) as nat);
    let (environment, rest) = parsed_entries(middle, bytes::le16_at(payload, 12) as nat)->Ok_0;
    bytes::lemma_le64_at(payload, 0);
    bytes::lemma_le16_at(payload, 8);
    bytes::lemma_le16_at(payload, 10);
    bytes::lemma_le16_at(payload, 12);
    bytes::lemma_le16_at(payload, 14);
    assert(rest =~= seq![]);
    let head = bytes::le64(request.deadline.0) + bytes::le16(policy_len)
        + bytes::le16(arguments.len() as u16) + bytes::le16(environment.len() as u16)
        + bytes::le16(0);
    assert(head =~= payload.subrange(0, 8) + payload.subrange(8, 10) + payload.subrange(10, 12)
        + payload.subrange(12, 14) + payload.subrange(14, 16));
    assert(head =~= payload.subrange(0, 16));
    assert(spawn_bytes(request)
        =~= head + body.subrange(0, policy_len as int) + components_bytes(arguments)
            + entries_bytes(environment));
    assert(from =~= components_bytes(arguments) + entries_bytes(environment));
    assert(body =~= body.subrange(0, policy_len as int) + from);
    assert(payload =~= payload.subrange(0, 16) + body);
    assert(payload =~= spawn_bytes(request));
}

/// No extension of an accepted payload is accepted, and none of its proper prefixes.
pub proof fn law_spawn_length_is_bound(payload: Seq<u8>, other: Seq<u8>)
    requires
        parsed_spawn(payload) is Ok,
        payload.is_prefix_of(other) || other.is_prefix_of(payload),
        payload.len() != other.len(),
    ensures
        parsed_spawn(other) is Err,
{
    if parsed_spawn(other) is Ok {
        if payload.len() < other.len() {
            lemma_spawn_prefix_free(payload, other);
        } else {
            lemma_spawn_prefix_free(other, payload);
        }
    }
}

/// Of two accepted payloads neither is a proper prefix of the other.
proof fn lemma_spawn_prefix_free(short: Seq<u8>, long: Seq<u8>)
    requires
        parsed_spawn(short) is Ok,
        parsed_spawn(long) is Ok,
        short.is_prefix_of(long),
    ensures
        short == long,
{
    law_spawn_is_canonical(short);
    let request = parsed_spawn(short)->Ok_0;
    let tail = long.subrange(short.len() as int, long.len() as int);
    assert(long =~= short + tail);
    assert(long.subrange(0, 16) =~= short.subrange(0, 16));
    assert forall|at: int| 0 <= at <= 14 implies bytes::le16_at(short, at)
        == bytes::le16_at(long, at) by {
        bytes::lemma_le_at_subrange(short, 0, 16, at);
        bytes::lemma_le_at_subrange(long, 0, 16, at);
    }
    let policy_len = bytes::le16_at(short, 8) as int;
    let body = long.subrange(16, long.len() as int);
    let from = body.subrange(policy_len, body.len() as int);
    let arguments = components_bytes(request.arguments);
    let environment = entries_bytes(request.environment);
    let own = short.subrange(16, short.len() as int);
    let own_from = own.subrange(policy_len, own.len() as int);
    lemma_components_canonical(own_from, bytes::le16_at(short, 10) as nat);
    let (list, middle) = parsed_components(own_from, bytes::le16_at(short, 10) as nat)->Ok_0;
    lemma_entries_canonical(middle, bytes::le16_at(short, 12) as nat);
    assert(parsed_entries(middle, bytes::le16_at(short, 12) as nat)->Ok_0.1 =~= seq![]);
    assert(own_from =~= arguments + environment);
    assert(from =~= own_from + tail);
    assert(from =~= arguments + (environment + tail));
    lemma_components_round_trip(request.arguments, environment + tail);
    lemma_entries_round_trip(request.environment, tail);
    assert(tail.len() == 0);
    assert(long =~= short);
}

/// Coarse spawn failure; it reveals no process, signal, path or native status.
#[derive(Clone, Copy, Debug, PartialEq, Eq, Structural)]
pub enum SpawnFailure {
    Denied,
    Busy,
    DeadlineExpired,
    LaunchFailed,
}

impl SpawnFailure {
    /// The number that stands for the failure on the wire.
    pub open spec fn spec_code(self) -> u16 {
        match self {
            SpawnFailure::Denied => 1,
            SpawnFailure::Busy => 2,
            SpawnFailure::DeadlineExpired => 3,
            SpawnFailure::LaunchFailed => 4,
        }
    }

    /// The number that stands for the failure on the wire.
    pub fn code(self) -> (r: u16)
        ensures
            r == self.spec_code(),
    {
        match self {
            SpawnFailure::Denied => 1,
            SpawnFailure::Busy => 2,
            SpawnFailure::DeadlineExpired => 3,
            SpawnFailure::LaunchFailed => 4,
        }
    }

    /// The failure that a number stands for; any other number is malformed.
    pub fn decode(value: u16) -> (r: Result<SpawnFailure, SupervisorWireError>)
        ensures
            match r {
                Ok(failure) => failure.spec_code() == value,
                Err(error) => error == SupervisorWireError::Malformed && !(1 <= value <= 4),
            },
    {
        match value {
            1 => Ok(SpawnFailure::Denied),
            2 => Ok(SpawnFailure::Busy),
            3 => Ok(SpawnFailure::DeadlineExpired),
            4 => Ok(SpawnFailure::LaunchFailed),
            _ => Err(SupervisorWireError::Malformed),
        }
    }
}

/// Authenticated result of one spawn request.
#[derive(Clone, Copy, PartialEq, Eq)]
pub enum DecodedSpawnResult {
    Ready(OpaqueSessionHandle),
    Rejected(SpawnFailure),
}

/// The payload of a result: the handle of a started session, or a failure and no handle.
pub open spec fn result_bytes(result: Result<Seq<u8>, SpawnFailure>) -> Seq<u8> {
    match result {
        Ok(handle) => bytes::le16(1) + bytes::le16(0) + bytes::le32(0) + handle,
        Err(failure) => bytes::le16(2) + bytes::le16(failure.spec_code()) + bytes::le32(0)
            + bytes::zeros(32),
    }
}

/// Whether a payload of 40 bytes is the form of `result`: outcome 1 carries a nonzero handle and
/// no detail, outcome 2 a failure and no handle.
pub open spec fn holds_result(payload: Seq<u8>, result: Result<Seq<u8>, SpawnFailure>) -> bool {
    &&& payload.len() == SPAWN_RESULT_LEN
    &&& bytes::le32_at(payload, 4) == 0
    &&& match result {
        Ok(handle) => {
            &&& bytes::le16_at(payload, 0) == 1
            &&& bytes::le16_at(payload, 2) == 0
            &&& handle == payload.subrange(8, 40)
            &&& !bytes::all_zero(handle)
        },
        Err(failure) => {
            &&& bytes::le16_at(payload, 0) == 2
            &&& bytes::le16_at(payload, 2) == failure.spec_code()
            &&& bytes::all_zero(payload.subrange(8, 40))
        },
    }
}

impl DecodedSpawnResult {
    /// The result without its wrappers.
    pub open spec fn plain(self) -> Result<Seq<u8>, SpawnFailure> {
        match self {
            DecodedSpawnResult::Ready(handle) => Ok(handle.0@),
            DecodedSpawnResult::Rejected(failure) => Err(failure),
        }
    }
}

/// Reads the payload of a result.
pub fn decode_result_payload(payload: &[u8]) -> (r: Result<
    DecodedSpawnResult,
    SupervisorWireError,
>)
    requires
        payload@.len() == SPAWN_RESULT_LEN,
    ensures
        match r {
            Ok(result) => holds_result(payload@, result.plain()),
            Err(error) => {
                &&& error == SupervisorWireError::Malformed
                &&& forall|result: Result<Seq<u8>, SpawnFailure>| !holds_result(payload@, result)
            },
        },
{
    let (outcome, detail, reserved, handle) = match (
        u16_at(payload, 0),
        u16_at(payload, 2),
        u32_at(payload, 4),
        array_at(payload, 8),
    ) {
        (Some(outcome), Some(detail), Some(reserved), Some(handle)) => (
            outcome,
            detail,
            reserved,
            handle,
        ),
        _ => {
            return Err(SupervisorWireError::Malformed);
        },
    };
    if reserved != 0 {
        return Err(SupervisorWireError::Malformed);
    }
    let empty = is_all_zero(&handle);
    if outcome == 1 && detail == 0 && !empty {
        return Ok(DecodedSpawnResult::Ready(OpaqueSessionHandle(handle)));
    }
    if outcome == 2 && empty {
        return match SpawnFailure::decode(detail) {
            Ok(failure) => Ok(DecodedSpawnResult::Rejected(failure)),
            Err(error) => Err(error),
        };
    }
    Err(SupervisorWireError::Malformed)
}

/// Writes the payload of a result; a session without a handle is malformed.
pub fn encode_result_payload(result: Result<[u8; 32], SpawnFailure>) -> (r: Result<
    Vec<u8>,
    SupervisorWireError,
>)
    ensures
        match r {
            Ok(payload) => match result {
                Ok(handle) => !bytes::all_zero(handle@) && payload@ == result_bytes(Ok(handle@)),
                Err(failure) => payload@ == result_bytes(Err(failure)),
            },
            Err(error) => error == SupervisorWireError::Malformed && (result matches Ok(handle)
                && bytes::all_zero(handle@)),
        },
        r matches Ok(payload) ==> payload@.len() == SPAWN_RESULT_LEN,
{
    let mut payload: Vec<u8> = Vec::new();
    let ghost start = payload@;
    match result {
        Ok(handle) => {
            if is_all_zero(&handle) {
                return Err(SupervisorWireError::Malformed);
            }
            put_u16(&mut payload, 1);
            put_u16(&mut payload, 0);
            put_u32(&mut payload, 0);
            put_bytes(&mut payload, &handle);
            assert(payload@ =~= result_bytes(Ok(handle@)));
        },
        Err(failure) => {
            let handle: [u8; 32] = [0u8;32];
            put_u16(&mut payload, 2);
            put_u16(&mut payload, failure.code());
            put_u32(&mut payload, 0);
            put_bytes(&mut payload, &handle);
            assert(handle@ =~= bytes::zeros(32));
            assert(payload@ =~= result_bytes(Err(failure)));
        },
    }
    proof {
        bytes::lemma_le16(0);
        bytes::lemma_le16(1);
        bytes::lemma_le16(2);
        bytes::lemma_le32(0);
        if result is Err {
            bytes::lemma_le16(result->Err_0.spec_code());
        }
    }
    Ok(payload)
}

/// A result reads back from its payload and from no other.
pub proof fn law_result_round_trip(result: Result<Seq<u8>, SpawnFailure>, payload: Seq<u8>)
    requires
        result matches Ok(handle) ==> handle.len() == 32 && !bytes::all_zero(handle),
    ensures
        holds_result(result_bytes(result), result),
        holds_result(payload, result) ==> payload == result_bytes(result),
{
    let bytes = result_bytes(result);
    bytes::lemma_le16(0);
    bytes::lemma_le16(1);
    bytes::lemma_le16(2);
    bytes::lemma_le32(0);
    match result {
        Ok(handle) => {
            assert(bytes.subrange(0, 2) =~= bytes::le16(1));
            assert(bytes.subrange(2, 4) =~= bytes::le16(0));
            assert(bytes.subrange(8, 40) =~= handle);
        },
        Err(failure) => {
            bytes::lemma_le16(failure.spec_code());
            assert(bytes.subrange(0, 2) =~= bytes::le16(2));
            assert(bytes.subrange(2, 4) =~= bytes::le16(failure.spec_code()));
            assert(bytes.subrange(8, 40) =~= bytes::zeros(32));
        },
    }
    assert(bytes.subrange(4, 8) =~= bytes::le32(0));
    bytes::lemma_field(bytes, 0);
    bytes::lemma_field(bytes, 2);
    bytes::lemma_field(bytes, 4);
    if holds_result(payload, result) {
        bytes::lemma_le16_at(payload, 0);
        bytes::lemma_le16_at(payload, 2);
        bytes::lemma_le32_at(payload, 4);
        assert(payload =~= payload.subrange(0, 2) + payload.subrange(2, 4) + payload.subrange(4, 8)
            + payload.subrange(8, 40));
        if result is Err {
            assert(payload.subrange(8, 40) =~= bytes::zeros(32));
        }
    }
}

/// A request is written as its deadline, four counts, its policy identifier, its arguments and its
/// variables, each text behind its length, in the order of the request.
pub proof fn law_spawn_layout(
    request: RequestModel,
    list: Seq<Seq<u8>>,
    text: Seq<u8>,
    environment: Seq<EntryModel>,
    entry: EntryModel,
)
    requires
        request.policy_id.len() <= 128,
        request.arguments.len() <= 64,
        request.environment.len() <= 64,
    ensures
        ({
            let payload = spawn_bytes(request);
            &&& payload.subrange(0, 8) == bytes::le64(request.deadline.0)
            &&& payload.subrange(8, 10) == bytes::le16(request.policy_id.len() as u16)
            &&& payload.subrange(10, 12) == bytes::le16(request.arguments.len() as u16)
            &&& payload.subrange(12, 14) == bytes::le16(request.environment.len() as u16)
            &&& payload.subrange(14, 16) == bytes::le16(0)
            &&& payload.subrange(16, payload.len() as int) == request.policy_id + components_bytes(
                request.arguments,
            ) + entries_bytes(request.environment)
        }),
        components_bytes(Seq::empty()).len() == 0,
        components_bytes(list.push(text)) == components_bytes(list) + bytes::le16(
            text.len() as u16,
        ) + text,
        entries_bytes(Seq::empty()).len() == 0,
        entries_bytes(environment.push(entry)) == entries_bytes(environment) + bytes::le16(
            entry.key.len() as u16,
        ) + entry.key + bytes::le16(entry.value.len() as u16) + entry.value,
{
    let payload = spawn_bytes(request);
    bytes::lemma_le64(request.deadline.0);
    bytes::lemma_le16(request.policy_id.len() as u16);
    bytes::lemma_le16(request.arguments.len() as u16);
    bytes::lemma_le16(request.environment.len() as u16);
    bytes::lemma_le16(0);
    assert(payload.subrange(0, 8) =~= bytes::le64(request.deadline.0));
    assert(payload.subrange(8, 10) =~= bytes::le16(request.policy_id.len() as u16));
    assert(payload.subrange(10, 12) =~= bytes::le16(request.arguments.len() as u16));
    assert(payload.subrange(12, 14) =~= bytes::le16(request.environment.len() as u16));
    assert(payload.subrange(14, 16) =~= bytes::le16(0));
    assert(payload.subrange(16, payload.len() as int) =~= request.policy_id + components_bytes(
        request.arguments,
    ) + entries_bytes(request.environment));
    assert(list.push(text).drop_last() =~= list);
    assert(environment.push(entry).drop_last() =~= environment);
    assert(components_bytes(list.push(text)) =~= components_bytes(list) + bytes::le16(
        text.len() as u16,
    ) + text);
    assert(entries_bytes(environment.push(entry)) =~= entries_bytes(environment) + bytes::le16(
        entry.key.len() as u16,
    ) + entry.key + bytes::le16(entry.value.len() as u16) + entry.value);
}

/// A payload is refused for what is wrong with it: one that is too short or goes on behind its last
/// variable is malformed, one that announces too much exceeds a limit.
pub proof fn law_bad_payloads_are_refused(payload: Seq<u8>)
    ensures
        payload.len() < 16 ==> parsed_spawn(payload) == Err::<RequestModel, _>(
            SupervisorWireError::Malformed,
        ),
        payload.len() >= 16 && (bytes::le16_at(payload, 14) != 0 || bytes::le16_at(payload, 8) > 128
            || bytes::le16_at(payload, 10) > 64 || bytes::le16_at(payload, 12) > 64)
            ==> parsed_spawn(payload) == Err::<RequestModel, _>(SupervisorWireError::LimitExceeded),
{
}

/// The answers are told apart by their numbers.
pub proof fn law_answer_layout(handle: Seq<u8>, failure: SpawnFailure)
    requires
        handle.len() == 32,
    ensures
        result_bytes(Ok(handle)) == seq![1u8, 0, 0, 0, 0, 0, 0, 0] + handle,
        result_bytes(Err(failure)) == seq![
            2u8,
            0,
            match failure {
                SpawnFailure::Denied => 1u8,
                SpawnFailure::Busy => 2,
                SpawnFailure::DeadlineExpired => 3,
                SpawnFailure::LaunchFailed => 4,
            },
            0,
            0,
            0,
            0,
            0,
        ] + Seq::new(32, |_i: int| 0u8),
{
    bytes::law_numbers_are_little_endian(0, 0, 0, 0);
    bytes::law_numbers_are_little_endian(1, 0, 0, 0);
    bytes::law_numbers_are_little_endian(2, 0, 0, 0);
    bytes::law_numbers_are_little_endian(3, 0, 0, 0);
    bytes::law_numbers_are_little_endian(4, 0, 0, 0);
    assert(result_bytes(Ok(handle)) =~= seq![1u8, 0, 0, 0, 0, 0, 0, 0] + handle);
    assert(result_bytes(Err(failure)) =~= seq![
        2u8,
        0,
        match failure {
            SpawnFailure::Denied => 1u8,
            SpawnFailure::Busy => 2,
            SpawnFailure::DeadlineExpired => 3,
            SpawnFailure::LaunchFailed => 4,
        },
        0,
        0,
        0,
        0,
        0,
    ] + Seq::new(32, |_i: int| 0u8));
}

/// A component fits exactly where two bytes can hold its length.
pub proof fn law_components_fit(component: Seq<u8>)
    ensures
        fits(component) <==> component.len() < 0x1_0000,
{
}

} // verus!
