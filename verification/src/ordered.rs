//! Objects that stand for sequences: every member is named by its index.
//!
//! The API sends what is a list as an object whose names are the decimal
//! indices of the items. Such an object is read back into a sequence ordered
//! by index, and refused where an index is given twice or left out.

use crate::decode::{fault, plain_fault, under, Decode, DecodeError, DecodeFault, ErrorKind};
use crate::encode::{valid_items, Encode};
use crate::fields::{Scalar, WriteScalar};
use crate::json::{lemma_object_view, Json, JsonValue};
use crate::text::{decimal_of, lemma_decimal_is_read_back};
use std::collections::BTreeMap;
use vstd::prelude::*;

verus! {

/// The members of an object's model.
pub type Members = Seq<(Seq<char>, JsonValue)>;

/// The index that the name of the member at `at` stands for.
pub open spec fn index_at(members: Members, at: int) -> int {
    usize::of_text(members[at].0)->Some_0 as int
}

/// Whether the member at `at` has the index of a member before it.
pub open spec fn repeats_index(members: Members, at: int) -> bool {
    exists|k: int| 0 <= k < at && index_at(members, k) == index_at(members, at)
}

/// The fault of the member at `at`: its value cannot be read as a `T`, its
/// name is no index, or its index was given before.
pub open spec fn entry_fault<T: Decode>(members: Members, at: int) -> Option<DecodeFault> {
    if T::failure(members[at].1) is Some {
        under(T::failure(members[at].1), at)
    } else if usize::of_text(members[at].0) is None {
        under(Some(fault(ErrorKind::InvalidIndexKey, members[at].0)), at)
    } else if repeats_index(members, at) {
        under(Some(fault(ErrorKind::DuplicateIndex, members[at].0)), at)
    } else {
        None
    }
}

/// The fault of the first member from `from` on that has one.
pub open spec fn first_entry_fault<T: Decode>(members: Members, from: int) -> Option<DecodeFault>
    decreases members.len() - from,
{
    if from < 0 || from >= members.len() {
        None
    } else if entry_fault::<T>(members, from) is Some {
        entry_fault::<T>(members, from)
    } else {
        first_entry_fault::<T>(members, from + 1)
    }
}

/// The least index among the first `count` members.
pub open spec fn least_index(members: Members, count: int) -> int
    decreases count,
{
    if count <= 1 {
        index_at(members, 0)
    } else if index_at(members, count - 1) < least_index(members, count - 1) {
        index_at(members, count - 1)
    } else {
        least_index(members, count - 1)
    }
}

/// The greatest index among the first `count` members.
pub open spec fn greatest_index(members: Members, count: int) -> int
    decreases count,
{
    if count <= 1 {
        index_at(members, 0)
    } else if index_at(members, count - 1) > greatest_index(members, count - 1) {
        index_at(members, count - 1)
    } else {
        greatest_index(members, count - 1)
    }
}

/// Whether the indices of the members leave no gap: there are as many
/// members as there are numbers from the least index to the greatest.
pub open spec fn covers_range(members: Members) -> bool {
    members.len() > 0 ==> greatest_index(members, members.len() as int) - least_index(
        members,
        members.len() as int,
    ) + 1 == members.len()
}

/// The fault of reading `j` as a sequence given by indices.
pub open spec fn sequence_failure<T: Decode>(j: JsonValue) -> Option<DecodeFault> {
    match j {
        JsonValue::Object(members) => if first_entry_fault::<T>(members, 0) is Some {
            first_entry_fault::<T>(members, 0)
        } else if !covers_range(members) {
            Some(plain_fault(ErrorKind::IncompleteIndexRange))
        } else {
            None
        },
        _ => Some(plain_fault(ErrorKind::WrongType)),
    }
}

/// Whether `v` is the sequence that `j` gives by indices: as long as `j` has
/// members, with the value of each member at the place that its index has
/// above the least index.
pub open spec fn sequence_reads<T: Decode>(v: Seq<T>, j: JsonValue) -> bool {
    &&& j is Object
    &&& v.len() == j->Object_0.len()
    &&& forall|k: int|
        0 <= k < j->Object_0.len() ==> {
            let rank = #[trigger] index_at(j->Object_0, k) - least_index(j->Object_0, j->Object_0.len() as int);
            0 <= rank < v.len() && v[rank].reads(j->Object_0[k].1)
        }
}

/// No member before `upto` has a fault exactly where every value can be read
/// and the names stand for indices that differ from each other.
pub proof fn lemma_first_entry_fault<T: Decode>(members: Members, from: int)
    requires
        0 <= from,
    ensures
        first_entry_fault::<T>(members, from) is None <==> forall|k: int|
            from <= k < members.len() ==> (#[trigger] entry_fault::<T>(members, k)) is None,
    decreases members.len() - from,
{
    if from < members.len() {
        lemma_first_entry_fault::<T>(members, from + 1);
    }
}

/// The least and the greatest index bound every index, and are indices.
pub proof fn lemma_index_bounds(members: Members, count: int)
    requires
        1 <= count <= members.len(),
    ensures
        forall|k: int|
            0 <= k < count ==> least_index(members, count) <= (#[trigger] index_at(members, k))
                <= greatest_index(members, count),
        exists|k: int| 0 <= k < count && index_at(members, k) == least_index(members, count),
        exists|k: int| 0 <= k < count && index_at(members, k) == greatest_index(members, count),
    decreases count,
{
    if count > 1 {
        lemma_index_bounds(members, count - 1);
        let a = choose|k: int| 0 <= k < count - 1 && index_at(members, k) == least_index(members, count - 1);
        let b = choose|k: int| 0 <= k < count - 1 && index_at(members, k) == greatest_index(members, count - 1);
        if index_at(members, count - 1) < least_index(members, count - 1) {
            assert(index_at(members, count - 1) == least_index(members, count));
        } else {
            assert(index_at(members, a) == least_index(members, count));
        }
        if index_at(members, count - 1) > greatest_index(members, count - 1) {
            assert(index_at(members, count - 1) == greatest_index(members, count));
        } else {
            assert(index_at(members, b) == greatest_index(members, count));
        }
    } else {
        assert(index_at(members, 0) == least_index(members, count));
        assert(index_at(members, 0) == greatest_index(members, count));
    }
}

/// Indices that differ from each other and lie among as many numbers as
/// there are indices take every one of those numbers.
pub proof fn lemma_indices_fill_range(indices: Seq<int>, low: int)
    requires
        indices.no_duplicates(),
        forall|k: int| 0 <= k < indices.len() ==> low <= #[trigger] indices[k] < low + indices.len(),
    ensures
        forall|x: int| low <= x < low + indices.len() ==> indices.contains(x),
{
    let taken = indices.to_set();
    let range = vstd::set_lib::set_int_range(low, low + indices.len());
    indices.unique_seq_to_set();
    vstd::set_lib::lemma_int_range(low, low + indices.len());
    assert(taken.subset_of(range)) by {
        assert forall|x: int| taken.contains(x) implies range.contains(x) by {
            let k = choose|k: int| 0 <= k < indices.len() && indices[k] == x;
        }
    }
    vstd::set_lib::lemma_len_subset(taken, range);
    vstd::set_lib::lemma_subset_equality(taken, range);
    assert forall|x: int| low <= x < low + indices.len() implies indices.contains(x) by {
        assert(range.contains(x));
        assert(taken.contains(x));
    }
}

/// An object is read as a sequence whenever its values can be read, its
/// names stand for indices that differ from each other, and the indices are
/// the numbers from `base` up, in whatever order they come. The sequence
/// then holds each value at the place that its index has above `base`: the
/// values come out in ascending order of their indices.
pub proof fn lemma_contiguous_indices_are_read<T: Decode>(members: Members, base: int)
    requires
        forall|k: int| 0 <= k < members.len() ==> T::failure(#[trigger] members[k].1) is None,
        forall|k: int| 0 <= k < members.len() ==> usize::of_text(#[trigger] members[k].0) is Some,
        forall|a: int, b: int|
            0 <= a < b < members.len() ==> index_at(members, a) != index_at(members, b),
        forall|k: int| 0 <= k < members.len() ==> base <= #[trigger] index_at(members, k) < base + members.len(),
    ensures
        sequence_failure::<T>(JsonValue::Object(members)) is None,
        members.len() > 0 ==> least_index(members, members.len() as int) == base,
        forall|v: Seq<T>| #[trigger]
            sequence_reads(v, JsonValue::Object(members)) ==> forall|k: int|
                0 <= k < members.len() ==> (#[trigger] v[index_at(members, k) - base]).reads(members[k].1),
{
    let count = members.len() as int;
    assert forall|k: int| 0 <= k < count implies (#[trigger] entry_fault::<T>(members, k)) is None by {
        assert(T::failure(members[k].1) is None);
        assert(usize::of_text(members[k].0) is Some);
        if repeats_index(members, k) {
            let a = choose|a: int| 0 <= a < k && index_at(members, a) == index_at(members, k);
            assert(index_at(members, a) != index_at(members, k));
        }
    }
    lemma_first_entry_fault::<T>(members, 0);
    if count > 0 {
        let indices = Seq::new(count as nat, |k: int| index_at(members, k));
        assert(indices.no_duplicates()) by {
            assert forall|a: int, b: int| 0 <= a < indices.len() && 0 <= b < indices.len() && a != b implies indices[a]
                != indices[b] by {
                if a < b {
                    assert(index_at(members, a) != index_at(members, b));
                } else {
                    assert(index_at(members, b) != index_at(members, a));
                }
            }
        }
        assert forall|k: int| 0 <= k < indices.len() implies base <= #[trigger] indices[k] < base
            + indices.len() by {
            assert(indices[k] == index_at(members, k));
        }
        lemma_indices_fill_range(indices, base);
        lemma_index_bounds(members, count);
        assert(indices.contains(base));
        let low = choose|k: int| 0 <= k < indices.len() && indices[k] == base;
        assert(index_at(members, low) == base);
        assert(indices.contains(base + count - 1));
        let high = choose|k: int| 0 <= k < indices.len() && indices[k] == base + count - 1;
        assert(index_at(members, high) == base + count - 1);
        assert(least_index(members, count) == base);
        assert(greatest_index(members, count) == base + count - 1);
    }
    assert forall|v: Seq<T>| #[trigger]
        sequence_reads(v, JsonValue::Object(members)) implies forall|k: int|
        0 <= k < members.len() ==> (#[trigger] v[index_at(members, k) - base]).reads(members[k].1) by {
        assert forall|k: int| 0 <= k < members.len() implies (#[trigger] v[index_at(members, k) - base]).reads(
            members[k].1,
        ) by {
            let rank = index_at(members, k) - least_index(members, count);
            assert(v[rank].reads(members[k].1));
        }
    }
}

/// Reads an object whose members are named by their indices as the sequence
/// of its values, ordered by index.
///
/// The members are taken in the order in which the object gives them. The
/// first one of which the value cannot be read as a `T`, the name is no
/// index, or the index was given before, ends the reading with its fault.
/// After that the indices must leave no gap between the least and the
/// greatest. An object without members gives the empty sequence.
pub fn deserialize_to_vec<T: Decode>(j: &Json) -> (r: Result<Vec<T>, DecodeError>)
    ensures
        match r {
            Ok(v) => sequence_failure::<T>(j@) is None && sequence_reads(v@, j@),
            Err(e) => sequence_failure::<T>(j@) == Some(e@),
        },
{
    let members = match j {
        Json::Object(members) => members,
        _ => {
            return Err(DecodeError::plain(ErrorKind::WrongType));
        },
    };
    let ghost model = j@->Object_0;
    proof {
        lemma_object_view(*j);
    }
    let mut slots: BTreeMap<usize, T> = BTreeMap::new();
    let mut least: usize = 0;
    let mut greatest: usize = 0;
    let mut i: usize = 0;
    while i < members.len()
        invariant
            i <= members.len(),
            j@ == JsonValue::Object(model),
            model.len() == members.len(),
            forall|k: int| 0 <= k < members.len() ==> (#[trigger] model[k]) == (members[k].0@, members[k].1@),
            first_entry_fault::<T>(model, 0) == first_entry_fault::<T>(model, i as int),
            forall|k: int| 0 <= k < i ==> (#[trigger] entry_fault::<T>(model, k)) is None,
            forall|k: int| 0 <= k < i ==> slots@.contains_key(#[trigger] index_at(model, k) as usize),
            forall|k: int| 0 <= k < i ==> slots@[#[trigger] index_at(model, k) as usize].reads(model[k].1),
            forall|x: usize|
                slots@.contains_key(x) ==> exists|k: int| 0 <= k < i && #[trigger] index_at(model, k) == x,
            i > 0 ==> least == least_index(model, i as int) && greatest == greatest_index(model, i as int),
        decreases members.len() - i,
    {
        let member = &members[i];
        assert(model[i as int] == (member.0@, member.1@));
        let value = match T::decode(&member.1) {
            Ok(value) => value,
            Err(e) => {
                return Err(e.under(i));
            },
        };
        let index = match usize::from_text(member.0.as_str()) {
            Some(index) => index,
            None => {
                return Err(DecodeError::new(ErrorKind::InvalidIndexKey, member.0.as_str()).under(i));
            },
        };
        assert(index == index_at(model, i as int));
        let ghost before = slots@;
        if slots.insert(index, value).is_some() {
            proof {
                let k = choose|k: int| 0 <= k < i && #[trigger] index_at(model, k) == index;
                assert(repeats_index(model, i as int));
            }
            return Err(DecodeError::new(ErrorKind::DuplicateIndex, member.0.as_str()).under(i));
        }
        proof {
            assert(!repeats_index(model, i as int)) by {
                if repeats_index(model, i as int) {
                    let k = choose|k: int| 0 <= k < i && index_at(model, k) == index_at(model, i as int);
                    assert(before.contains_key(index_at(model, k) as usize));
                }
            }
            assert(entry_fault::<T>(model, i as int) is None);
            assert forall|k: int| 0 <= k < i + 1 implies slots@[#[trigger] index_at(model, k) as usize].reads(
                model[k].1,
            ) by {
                if k < i {
                    assert(before.contains_key(index_at(model, k) as usize));
                    assert(index_at(model, k) != index);
                }
            }
            assert forall|x: usize| slots@.contains_key(x) implies exists|k: int|
                0 <= k < i + 1 && #[trigger] index_at(model, k) == x by {
                if x == index {
                    assert(index_at(model, i as int) == x);
                } else {
                    assert(before.contains_key(x));
                    let k = choose|k: int| 0 <= k < i && #[trigger] index_at(model, k) == x;
                    assert(0 <= k < i + 1 && index_at(model, k) == x);
                }
            }
        }
        if i == 0 || index < least {
            least = index;
        }
        if i == 0 || index > greatest {
            greatest = index;
        }
        i += 1;
    }
    let count = members.len();
    proof {
        lemma_first_entry_fault::<T>(model, 0);
    }
    if count == 0 {
        return Ok(Vec::new());
    }
    proof {
        lemma_index_bounds(model, count as int);
    }
    if greatest - least != count - 1 {
        return Err(DecodeError::plain(ErrorKind::IncompleteIndexRange));
    }
    proof {
        let indices = Seq::new(count as nat, |k: int| index_at(model, k));
        assert(indices.no_duplicates()) by {
            assert forall|a: int, b: int| 0 <= a < indices.len() && 0 <= b < indices.len() && a != b implies indices[a]
                != indices[b] by {
                if a < b {
                    assert(entry_fault::<T>(model, b) is None);
                    assert(!repeats_index(model, b));
                } else {
                    assert(entry_fault::<T>(model, a) is None);
                    assert(!repeats_index(model, a));
                }
            }
        }
        assert forall|k: int| 0 <= k < indices.len() implies least <= #[trigger] indices[k] < least
            + indices.len() by {
            assert(indices[k] == index_at(model, k));
        }
        lemma_indices_fill_range(indices, least as int);
        assert forall|x: usize| least <= x <= greatest implies #[trigger] slots@.contains_key(x) by {
            assert(indices.contains(x as int));
            let k = choose|k: int| 0 <= k < indices.len() && indices[k] == x;
            assert(index_at(model, k) == x);
        }
    }
    let mut out: Vec<T> = Vec::new();
    let mut rank: usize = 0;
    while rank < count
        invariant
            rank <= count,
            count == members.len(),
            count == model.len(),
            count > 0,
            greatest - least == count - 1,
            out.len() == rank,
            least == least_index(model, count as int),
            forall|k: int|
                0 <= k < count ==> least <= (#[trigger] index_at(model, k)) <= greatest,
            forall|x: usize| least + rank <= x <= greatest ==> #[trigger] slots@.contains_key(x),
            forall|k: int|
                0 <= k < count && least
                    + rank <= index_at(model, k) ==> slots@[#[trigger] index_at(model, k) as usize].reads(
                    model[k].1,
                ),
            forall|k: int|
                0 <= k < count && index_at(model, k) < least + rank ==> out@[#[trigger] index_at(model, k)
                    - least].reads(model[k].1),
        decreases count - rank,
    {
        let key: usize = least + rank;
        let ghost before = slots@;
        let ghost filled = out@;
        match slots.remove(&key) {
            Some(value) => {
                assert(value == before[key]);
                out.push(value);
                proof {
                    assert forall|k: int| 0 <= k < count && index_at(model, k) < least
                        + rank
                        + 1 implies out@[#[trigger] index_at(
                        model,
                        k,
                    ) - least].reads(model[k].1) by {
                        if index_at(model, k) == key {
                            assert(before[index_at(model, k) as usize].reads(model[k].1));
                        } else {
                            assert(filled[index_at(model, k) - least].reads(model[k].1));
                        }
                    }
                    assert forall|k: int| 0 <= k < count && least
                        + rank
                        + 1 <= index_at(model, k) implies slots@[#[trigger] index_at(
                        model,
                        k,
                    ) as usize].reads(model[k].1) by {
                        assert(before[index_at(model, k) as usize].reads(model[k].1));
                    }
                }
            },
            None => {
                assert(before.contains_key(key));
                assert(false);
                return Err(DecodeError::plain(ErrorKind::IncompleteIndexRange));
            },
        }
        rank += 1;
    }
    Ok(out)
}

/// The fault of reading the member `name` of `j` as a sequence given by
/// indices.
pub open spec fn indexed_failure<T: Decode>(j: JsonValue, name: Seq<char>) -> Option<DecodeFault> {
    if !(j is Object) {
        Some(plain_fault(ErrorKind::WrongType))
    } else {
        match j.member(name) {
            Some(value) => under(sequence_failure::<T>(value), j.place(name)),
            None => Some(fault(ErrorKind::MissingField, name)),
        }
    }
}

/// Whether `v` is the sequence that the member `name` of `j` gives by
/// indices.
pub open spec fn indexed_reads<T: Decode>(v: Seq<T>, j: JsonValue, name: Seq<char>) -> bool {
    j.member(name) matches Some(value) && sequence_reads(v, value)
}

/// Reads the member `name` of the object `j` with [`deserialize_to_vec`].
pub fn indexed<T: Decode>(j: &Json, name: &str) -> (r: Result<Vec<T>, DecodeError>)
    ensures
        match r {
            Ok(v) => indexed_failure::<T>(j@, name@) is None && indexed_reads(v@, j@, name@),
            Err(e) => indexed_failure::<T>(j@, name@) == Some(e@),
        },
{
    if !j.is_object() {
        return Err(DecodeError::plain(ErrorKind::WrongType));
    }
    match j.find(name) {
        Some((place, value)) => match deserialize_to_vec::<T>(value) {
            Ok(v) => Ok(v),
            Err(e) => Err(e.under(place)),
        },
        None => Err(DecodeError::new(ErrorKind::MissingField, name)),
    }
}

/// The members that a sequence is written as: each item under the decimal
/// notation of its place, places counted from 0.
pub open spec fn encoded_members<T: Encode>(items: Seq<T>) -> Members {
    Seq::new(items.len(), |k: int| (decimal_of(k as nat), items[k].encoded()))
}

/// The object that a sequence is written as.
pub open spec fn encoded_sequence<T: Encode>(items: Seq<T>) -> JsonValue {
    JsonValue::Object(encoded_members(items))
}

/// Writes a sequence as an object that names each item by its place.
pub fn encode_sequence<T: Encode>(items: &Vec<T>) -> (j: Json)
    ensures
        j@ == encoded_sequence(items@),
{
    let mut out: Vec<(String, Json)> = Vec::new();
    let mut k: usize = 0;
    while k < items.len()
        invariant
            k <= items.len(),
            out.len() == k,
            forall|i: int| 0 <= i < k ==> (#[trigger] out[i]).0@ == decimal_of(i as nat),
            forall|i: int| 0 <= i < k ==> (#[trigger] out[i]).1@ == items@[i].encoded(),
        decreases items.len() - k,
    {
        out.push((k.to_text(), items[k].encode()));
        k += 1;
    }
    let j = Json::Object(out);
    proof {
        lemma_object_view(j);
        assert(j@->Object_0 =~= encoded_members(items@));
    }
    j
}

/// What a sequence is written as can be read, and stands for the sequence.
pub proof fn lemma_sequence_read_back<T: Encode>(items: Seq<T>)
    requires
        valid_items(items),
        items.len() <= usize::MAX,
    ensures
        sequence_failure::<T>(encoded_sequence(items)) is None,
        sequence_reads(items, encoded_sequence(items)),
{
    let members = encoded_members(items);
    assert forall|k: int| 0 <= k < members.len() implies T::failure(#[trigger] members[k].1) is None by {
        items[k].lemma_read_back();
    }
    assert forall|k: int| 0 <= k < members.len() implies usize::of_text(#[trigger] members[k].0) is Some
        && index_at(members, k) == k by {
        lemma_decimal_is_read_back(k as nat, usize::MAX as nat);
    }
    lemma_contiguous_indices_are_read::<T>(members, 0);
    assert forall|k: int| 0 <= k < members.len() implies {
        let rank = #[trigger] index_at(members, k) - least_index(members, members.len() as int);
        0 <= rank < items.len() && items[rank].reads(members[k].1)
    } by {
        items[k].lemma_read_back();
    }
}

/// Two sequences that one object stands for are written alike.
pub proof fn lemma_sequence_one_reading<T: Encode>(a: Seq<T>, b: Seq<T>, j: JsonValue)
    requires
        sequence_failure::<T>(j) is None,
        sequence_reads(a, j),
        sequence_reads(b, j),
    ensures
        encoded_sequence(a) == encoded_sequence(b),
{
    let members = j->Object_0;
    let count = members.len() as int;
    lemma_first_entry_fault::<T>(members, 0);
    if count > 0 {
        let least = least_index(members, count);
        lemma_index_bounds(members, count);
        let indices = Seq::new(count as nat, |k: int| index_at(members, k));
        assert(indices.no_duplicates()) by {
            assert forall|x: int, y: int| 0 <= x < indices.len() && 0 <= y < indices.len() && x != y implies indices[x]
                != indices[y] by {
                if x < y {
                    assert(entry_fault::<T>(members, y) is None);
                    assert(!repeats_index(members, y));
                } else {
                    assert(entry_fault::<T>(members, x) is None);
                    assert(!repeats_index(members, x));
                }
            }
        }
        assert forall|k: int| 0 <= k < indices.len() implies least <= #[trigger] indices[k] < least
            + indices.len() by {
            assert(indices[k] == index_at(members, k));
        }
        lemma_indices_fill_range(indices, least);
        assert forall|i: int| 0 <= i < a.len() implies (#[trigger] a[i].encoded()) == b[i].encoded() by {
            assert(indices.contains(least + i));
            let k = choose|k: int| 0 <= k < indices.len() && indices[k] == least + i;
            assert(index_at(members, k) - least == i);
            assert(entry_fault::<T>(members, k) is None);
            a[i].lemma_one_reading(&b[i], members[k].1);
        }
    }
    assert(encoded_members(a) =~= encoded_members(b));
}

/// The items of a sequence that an object stands for are well formed.
pub proof fn lemma_sequence_is_valid<T: Encode>(a: Seq<T>, j: JsonValue)
    requires
        sequence_failure::<T>(j) is None,
        sequence_reads(a, j),
    ensures
        valid_items(a),
{
    let members = j->Object_0;
    let count = members.len() as int;
    lemma_first_entry_fault::<T>(members, 0);
    if count > 0 {
        let least = least_index(members, count);
        lemma_index_bounds(members, count);
        let indices = Seq::new(count as nat, |k: int| index_at(members, k));
        assert(indices.no_duplicates()) by {
            assert forall|x: int, y: int| 0 <= x < indices.len() && 0 <= y < indices.len() && x != y implies indices[x]
                != indices[y] by {
                if x < y {
                    assert(entry_fault::<T>(members, y) is None);
                    assert(!repeats_index(members, y));
                } else {
                    assert(entry_fault::<T>(members, x) is None);
                    assert(!repeats_index(members, x));
                }
            }
        }
        assert forall|k: int| 0 <= k < indices.len() implies least <= #[trigger] indices[k] < least
            + indices.len() by {
            assert(indices[k] == index_at(members, k));
        }
        lemma_indices_fill_range(indices, least);
        assert forall|i: int| 0 <= i < a.len() implies (#[trigger] a[i]).valid() by {
            assert(indices.contains(least + i));
            let k = choose|k: int| 0 <= k < indices.len() && indices[k] == least + i;
            assert(index_at(members, k) - least == i);
            assert(entry_fault::<T>(members, k) is None);
            a[i].lemma_read_is_valid(members[k].1);
        }
    }
}

/// The items of a sequence that a member stands for are well formed.
pub proof fn lemma_indexed_is_valid<T: Encode>(v: Seq<T>, j: JsonValue, name: Seq<char>)
    requires
        indexed_failure::<T>(j, name) is None,
        indexed_reads(v, j, name),
    ensures
        valid_items(v),
{
    lemma_sequence_is_valid(v, j.member(name)->Some_0);
}

/// A member that holds what a sequence is written as is read as the
/// sequence.
pub proof fn lemma_indexed_read_back<T: Encode>(v: Seq<T>, j: JsonValue, name: Seq<char>)
    requires
        valid_items(v),
        v.len() <= usize::MAX,
        j is Object,
        j.member(name) == Some(encoded_sequence(v)),
    ensures
        indexed_failure::<T>(j, name) is None,
        indexed_reads(v, j, name),
{
    lemma_sequence_read_back(v);
}

/// Two sequences that one member stands for are written alike.
pub proof fn lemma_indexed_one_reading<T: Encode>(a: Seq<T>, b: Seq<T>, j: JsonValue, name: Seq<char>)
    requires
        indexed_failure::<T>(j, name) is None,
        indexed_reads(a, j, name),
        indexed_reads(b, j, name),
    ensures
        encoded_sequence(a) == encoded_sequence(b),
{
    lemma_sequence_one_reading(a, b, j.member(name)->Some_0);
}

} // verus!
