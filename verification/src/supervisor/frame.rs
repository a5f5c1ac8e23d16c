//! Lists of byte strings with 32-bit lengths, as they stand in cross-exec frames.

use vstd::prelude::*;
use crate::bytes;
use crate::bytes::{copy_bytes, put_bytes, put_u32, u32_at};
use crate::supervisor::deadline::SupervisorWireError;
use crate::supervisor::payload::PayloadCursor;
use crate::supervisor::target;
use crate::supervisor::target::{EntryModel, TargetEnvironmentEntry};

verus! {

/// A string as it stands in a frame: its length, then its bytes.
pub open spec fn item_bytes(item: Seq<u8>) -> Seq<u8> {
    bytes::le32(item.len() as u32) + item
}

/// The strings of a list, one after another.
pub open spec fn list_bytes(list: Seq<Seq<u8>>) -> Seq<u8>
    decreases list.len(),
{
    if list.len() == 0 {
        seq![]
    } else {
        list_bytes(list.drop_last()) + item_bytes(list.last())
    }
}

/// The entries of an environment, one after another.
pub open spec fn environment_bytes(list: Seq<EntryModel>) -> Seq<u8>
    decreases list.len(),
{
    if list.len() == 0 {
        seq![]
    } else {
        environment_bytes(list.drop_last()) + item_bytes(list.last().key) + item_bytes(
            list.last().value,
        )
    }
}

/// One string and what follows it; malformed where the frame ends first.
pub open spec fn parsed_item(bytes: Seq<u8>) -> Result<(Seq<u8>, Seq<u8>), SupervisorWireError> {
    let length = bytes::le32_at(bytes, 0);
    if bytes.len() < 4 || bytes.len() < 4 + length {
        Err(SupervisorWireError::Malformed)
    } else {
        Ok((bytes.subrange(4, 4 + length), bytes.subrange(4 + length, bytes.len() as int)))
    }
}

/// The first `count` strings and what follows them.
pub open spec fn parsed_list(bytes: Seq<u8>, count: nat) -> Result<
    (Seq<Seq<u8>>, Seq<u8>),
    SupervisorWireError,
>
    decreases count,
{
    if count == 0 {
        Ok((seq![], bytes))
    } else {
        match parsed_list(bytes, (count - 1) as nat) {
            Err(error) => Err(error),
            Ok((list, rest)) => match parsed_item(rest) {
                Err(error) => Err(error),
                Ok((item, rest)) => Ok((list.push(item), rest)),
            },
        }
    }
}

/// One entry and what follows it.
pub open spec fn parsed_pair(bytes: Seq<u8>) -> Result<(EntryModel, Seq<u8>), SupervisorWireError> {
    match parsed_item(bytes) {
        Err(error) => Err(error),
        Ok((key, rest)) => match parsed_item(rest) {
            Err(error) => Err(error),
            Ok((value, rest)) => if target::valid_entry(EntryModel { key, value }) {
                Ok((EntryModel { key, value }, rest))
            } else {
                Err(SupervisorWireError::InvalidTargetInput)
            },
        },
    }
}

/// The first `count` entries and what follows them.
pub open spec fn parsed_environment(bytes: Seq<u8>, count: nat) -> Result<
    (Seq<EntryModel>, Seq<u8>),
    SupervisorWireError,
>
    decreases count,
{
    if count == 0 {
        Ok((seq![], bytes))
    } else {
        match parsed_environment(bytes, (count - 1) as nat) {
            Err(error) => Err(error),
            Ok((list, rest)) => match parsed_pair(rest) {
                Err(error) => Err(error),
                Ok((entry, rest)) => Ok((list.push(entry), rest)),
            },
        }
    }
}

/// Appends one string.
pub fn append_component(bytes: &mut Vec<u8>, component: &[u8])
    requires
        component@.len() <= u32::MAX,
    ensures
        final(bytes)@ == old(bytes)@ + item_bytes(component@),
{
    let ghost before = bytes@;
    put_u32(bytes, component.len() as u32);
    put_bytes(bytes, component);
    assert(bytes@ =~= before + item_bytes(component@));
}

/// Appends a list of strings.
pub fn append_list(bytes: &mut Vec<u8>, list: &Vec<Vec<u8>>)
    requires
        target::valid_arguments(bytes::strings(list@)),
    ensures
        final(bytes)@ == old(bytes)@ + list_bytes(bytes::strings(list@)),
{
    let ghost before = bytes@;
    let ghost all = bytes::strings(list@);
    assert(all.take(0) =~= seq![]);
    assert(bytes@ =~= before + list_bytes(all.take(0)));
    let mut i: usize = 0;
    while i < list.len()
        invariant
            i <= list@.len(),
            all == bytes::strings(list@),
            target::valid_arguments(all),
            bytes@ == before + list_bytes(all.take(i as int)),
        decreases list@.len() - i,
    {
        assert(target::valid_component(all[i as int]));
        append_component(bytes, &list[i]);
        proof {
            let next = all.take(i + 1);
            assert(next.drop_last() =~= all.take(i as int));
            assert(next.last() == list@[i as int]@);
            assert(bytes@ =~= before + list_bytes(next));
        }
        i += 1;
    }
    assert(all.take(i as int) =~= all);
}

/// Appends an environment.
pub fn append_environment(bytes: &mut Vec<u8>, list: &Vec<TargetEnvironmentEntry>)
    requires
        target::valid_environment(target::entries(list@)),
    ensures
        final(bytes)@ == old(bytes)@ + environment_bytes(target::entries(list@)),
{
    let ghost before = bytes@;
    let ghost all = target::entries(list@);
    assert(all.take(0) =~= seq![]);
    assert(bytes@ =~= before + environment_bytes(all.take(0)));
    let mut i: usize = 0;
    while i < list.len()
        invariant
            i <= list@.len(),
            all == target::entries(list@),
            target::valid_environment(all),
            bytes@ == before + environment_bytes(all.take(i as int)),
        decreases list@.len() - i,
    {
        assert(list@[i as int]@ == all[i as int]);
        assert(target::valid_entry(all[i as int]));
        append_component(bytes, list[i].key());
        append_component(bytes, list[i].value());
        proof {
            let next = all.take(i + 1);
            assert(next.drop_last() =~= all.take(i as int));
            assert(next.last() == all[i as int]);
            assert(bytes@ =~= before + environment_bytes(next));
        }
        i += 1;
    }
    assert(all.take(i as int) =~= all);
}

/// Takes one string.
pub fn take_component<'a>(cursor: &mut PayloadCursor<'a>) -> (r: Result<
    Vec<u8>,
    SupervisorWireError,
>)
    ensures
        match (r, parsed_item(old(cursor).remaining@)) {
            (Ok(value), Ok((item, rest))) => value@ == item && final(cursor).remaining@ == rest,
            (Err(error), Err(expected)) => error == expected,
            _ => false,
        },
{
    let ghost start = cursor.remaining@;
    let prefix = match cursor.take(4) {
        Ok(prefix) => prefix,
        Err(error) => {
            return Err(error);
        },
    };
    proof {
        bytes::lemma_le_at_subrange(start, 0, 4, 0);
    }
    let length: u32 = match u32_at(prefix, 0) {
        Some(length) => length,
        None => {
            return Err(SupervisorWireError::Malformed);
        },
    };
    let ghost middle = cursor.remaining@;
    match cursor.take(length as usize) {
        Ok(value) => {
            proof {
                assert(middle.subrange(0, length as int) =~= start.subrange(4, 4 + length));
                assert(middle.subrange(length as int, middle.len() as int) =~= start.subrange(
                    4 + length,
                    start.len() as int,
                ));
            }
            Ok(copy_bytes(value))
        },
        Err(error) => Err(error),
    }
}

/// Takes `count` strings.
pub fn take_list<'a>(cursor: &mut PayloadCursor<'a>, count: u16) -> (r: Result<
    Vec<Vec<u8>>,
    SupervisorWireError,
>)
    ensures
        match (r, parsed_list(old(cursor).remaining@, count as nat)) {
            (Ok(value), Ok((list, rest))) => bytes::strings(value@) == list
                && final(cursor).remaining@
                == rest,
            (Err(error), Err(expected)) => error == expected,
            _ => false,
        },
{
    let ghost from = cursor.remaining@;
    let mut list: Vec<Vec<u8>> = Vec::new();
    assert(bytes::strings(list@) =~= seq![]);
    let mut i: u16 = 0;
    while i < count
        invariant
            i <= count,
            parsed_list(from, i as nat) == Ok::<(Seq<Seq<u8>>, Seq<u8>), SupervisorWireError>(
                (bytes::strings(list@), cursor.remaining@),
            ),
            from == old(cursor).remaining@,
        decreases count - i,
    {
        let ghost before = bytes::strings(list@);
        match take_component(cursor) {
            Ok(item) => {
                list.push(item);
                assert(bytes::strings(list@) =~= before.push(item@));
            },
            Err(error) => {
                proof {
                    assert(parsed_list(from, (i + 1) as nat) is Err);
                    lemma_list_stops(from, (i + 1) as nat, count as nat);
                }
                return Err(error);
            },
        }
        i += 1;
    }
    Ok(list)
}

/// Takes one entry.
fn take_entry<'a>(cursor: &mut PayloadCursor<'a>) -> (r: Result<
    TargetEnvironmentEntry,
    SupervisorWireError,
>)
    ensures
        match (r, parsed_pair(old(cursor).remaining@)) {
            (Ok(value), Ok((entry, rest))) => {
                &&& value@ == entry
                &&& target::valid_entry(entry)
                &&& final(cursor).remaining@ == rest
            },
            (Err(error), Err(expected)) => error == expected,
            _ => false,
        },
{
    let key = match take_component(cursor) {
        Ok(key) => key,
        Err(error) => {
            return Err(error);
        },
    };
    let value = match take_component(cursor) {
        Ok(value) => value,
        Err(error) => {
            return Err(error);
        },
    };
    TargetEnvironmentEntry::new(key, value)
}

/// Takes `count` entries.
pub fn take_environment<'a>(cursor: &mut PayloadCursor<'a>, count: u16) -> (r: Result<
    Vec<TargetEnvironmentEntry>,
    SupervisorWireError,
>)
    ensures
        match (r, parsed_environment(old(cursor).remaining@, count as nat)) {
            (Ok(value), Ok((list, rest))) => {
                &&& target::entries(value@) == list
                &&& target::valid_environment(list)
                &&& final(cursor).remaining@ == rest
            },
            (Err(error), Err(expected)) => error == expected,
            _ => false,
        },
{
    let ghost from = cursor.remaining@;
    let mut list: Vec<TargetEnvironmentEntry> = Vec::new();
    assert(target::entries(list@) =~= seq![]);
    let mut i: u16 = 0;
    while i < count
        invariant
            i <= count,
            parsed_environment(from, i as nat) == Ok::<
                (Seq<EntryModel>, Seq<u8>),
                SupervisorWireError,
            >((target::entries(list@), cursor.remaining@)),
            target::valid_environment(target::entries(list@)),
            from == old(cursor).remaining@,
        decreases count - i,
    {
        let ghost before = target::entries(list@);
        match take_entry(cursor) {
            Ok(entry) => {
                list.push(entry);
                assert(target::entries(list@) =~= before.push(entry@));
            },
            Err(error) => {
                proof {
                    assert(parsed_environment(from, (i + 1) as nat) is Err);
                    lemma_environment_stops(from, (i + 1) as nat, count as nat);
                }
                return Err(error);
            },
        }
        i += 1;
    }
    Ok(list)
}

/// A failure among the first strings is the failure of the list.
proof fn lemma_list_stops(bytes: Seq<u8>, at: nat, count: nat)
    requires
        at <= count,
        parsed_list(bytes, at) is Err,
    ensures
        parsed_list(bytes, count) == parsed_list(bytes, at),
    decreases count,
{
    if at < count {
        lemma_list_stops(bytes, at, (count - 1) as nat);
    }
}

/// A failure among the first entries is the failure of the environment.
proof fn lemma_environment_stops(bytes: Seq<u8>, at: nat, count: nat)
    requires
        at <= count,
        parsed_environment(bytes, at) is Err,
    ensures
        parsed_environment(bytes, count) == parsed_environment(bytes, at),
    decreases count,
{
    if at < count {
        lemma_environment_stops(bytes, at, (count - 1) as nat);
    }
}

/// One string reads back, and what follows it is left.
proof fn lemma_item_round_trip(item: Seq<u8>, tail: Seq<u8>)
    requires
        item.len() <= u32::MAX,
    ensures
        parsed_item(item_bytes(item) + tail) == Ok::<(Seq<u8>, Seq<u8>), SupervisorWireError>(
            (item, tail),
        ),
{
    let length = item.len() as u32;
    let bytes = item_bytes(item) + tail;
    bytes::lemma_le32(length);
    assert(bytes.subrange(0, 4) =~= bytes::le32(length));
    bytes::lemma_field(bytes, 0);
    assert(bytes.subrange(4, 4 + length) =~= item);
    assert(bytes.subrange(4 + length, bytes.len() as int) =~= tail);
}

/// A string that is read is the one form of its bytes.
proof fn lemma_item_canonical(bytes: Seq<u8>)
    requires
        parsed_item(bytes) is Ok,
    ensures
        parsed_item(bytes) matches Ok((item, tail)) && bytes == item_bytes(item) + tail
            && item.len() <= u32::MAX,
{
    let (item, tail) = parsed_item(bytes)->Ok_0;
    bytes::lemma_le32_at(bytes, 0);
    assert(bytes =~= item_bytes(item) + tail);
}

/// A list reads back.
pub proof fn lemma_list_round_trip(list: Seq<Seq<u8>>, tail: Seq<u8>)
    requires
        forall|i: int| 0 <= i < list.len() ==> (#[trigger] list[i]).len() <= u32::MAX,
    ensures
        parsed_list(list_bytes(list) + tail, list.len()) == Ok::<
            (Seq<Seq<u8>>, Seq<u8>),
            SupervisorWireError,
        >((list, tail)),
    decreases list.len(),
{
    if list.len() == 0 {
        assert(list_bytes(list) + tail =~= tail);
        assert(list =~= seq![]);
    } else {
        let rest = item_bytes(list.last()) + tail;
        lemma_list_round_trip(list.drop_last(), rest);
        lemma_item_round_trip(list.last(), tail);
        assert(list_bytes(list) + tail =~= list_bytes(list.drop_last()) + rest);
        assert(list =~= list.drop_last().push(list.last()));
    }
}

/// A list that is read is the one form of its bytes.
pub proof fn lemma_list_canonical(bytes: Seq<u8>, count: nat)
    requires
        parsed_list(bytes, count) is Ok,
    ensures
        parsed_list(bytes, count) matches Ok((list, tail)) && list.len() == count && bytes
            == list_bytes(list) + tail,
    decreases count,
{
    if count == 0 {
        assert(bytes =~= list_bytes(seq![]) + bytes);
    } else {
        lemma_list_canonical(bytes, (count - 1) as nat);
        let (before, rest) = parsed_list(bytes, (count - 1) as nat)->Ok_0;
        lemma_item_canonical(rest);
        let (item, tail) = parsed_item(rest)->Ok_0;
        let list = before.push(item);
        assert(list.drop_last() =~= before);
        assert(bytes =~= list_bytes(list) + tail);
    }
}

/// An environment reads back.
pub proof fn lemma_environment_round_trip(list: Seq<EntryModel>, tail: Seq<u8>)
    requires
        target::valid_environment(list),
    ensures
        parsed_environment(environment_bytes(list) + tail, list.len()) == Ok::<
            (Seq<EntryModel>, Seq<u8>),
            SupervisorWireError,
        >((list, tail)),
    decreases list.len(),
{
    if list.len() == 0 {
        assert(environment_bytes(list) + tail =~= tail);
        assert(list =~= seq![]);
    } else {
        let last = list.last();
        assert(target::valid_entry(list[list.len() - 1]));
        let rest = item_bytes(last.key) + (item_bytes(last.value) + tail);
        assert(target::valid_environment(list.drop_last())) by {
            assert forall|i: int| 0 <= i < list.drop_last().len() implies target::valid_entry(
                #[trigger] list.drop_last()[i],
            ) by {
                assert(target::valid_entry(list[i]));
            }
        }
        lemma_environment_round_trip(list.drop_last(), rest);
        lemma_item_round_trip(last.key, item_bytes(last.value) + tail);
        lemma_item_round_trip(last.value, tail);
        assert(environment_bytes(list) + tail =~= environment_bytes(list.drop_last()) + rest);
        assert((EntryModel { key: last.key, value: last.value }) == last);
        assert(list =~= list.drop_last().push(last));
    }
}

/// An environment that is read is the one form of its bytes.
pub proof fn lemma_environment_canonical(bytes: Seq<u8>, count: nat)
    requires
        parsed_environment(bytes, count) is Ok,
    ensures
        parsed_environment(bytes, count) matches Ok((list, tail)) && list.len() == count && bytes
            == environment_bytes(list) + tail && target::valid_environment(list),
    decreases count,
{
    if count == 0 {
        assert(bytes =~= environment_bytes(seq![]) + bytes);
    } else {
        lemma_environment_canonical(bytes, (count - 1) as nat);
        let (before, rest) = parsed_environment(bytes, (count - 1) as nat)->Ok_0;
        lemma_item_canonical(rest);
        let (key, middle) = parsed_item(rest)->Ok_0;
        lemma_item_canonical(middle);
        let (value, tail) = parsed_item(middle)->Ok_0;
        let list = before.push(EntryModel { key, value });
        assert(list.drop_last() =~= before);
        assert(list.last() == (EntryModel { key, value }));
        assert(bytes =~= environment_bytes(list) + tail);
    }
}

/// Strings and pairs are written one behind the other, each string behind its length.
pub proof fn law_lists_are_written_in_order(
    list: Seq<Seq<u8>>,
    item: Seq<u8>,
    environment: Seq<EntryModel>,
    entry: EntryModel,
)
    ensures
        list_bytes(Seq::empty()).len() == 0,
        list_bytes(list.push(item)) == list_bytes(list) + bytes::le32(item.len() as u32) + item,
        environment_bytes(Seq::empty()).len() == 0,
        environment_bytes(environment.push(entry)) == environment_bytes(environment) + bytes::le32(
            entry.key.len() as u32,
        ) + entry.key + bytes::le32(entry.value.len() as u32) + entry.value,
{
    assert(list.push(item).drop_last() =~= list);
    assert(environment.push(entry).drop_last() =~= environment);
    assert(list_bytes(list.push(item)) =~= list_bytes(list) + bytes::le32(item.len() as u32)
        + item);
    assert(environment_bytes(environment.push(entry)) =~= environment_bytes(environment)
        + bytes::le32(entry.key.len() as u32) + entry.key + bytes::le32(entry.value.len() as u32)
        + entry.value);
}

} // verus!
