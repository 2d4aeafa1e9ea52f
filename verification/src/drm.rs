//! The DRM ioctls that every driver answers.
//!
//! Their argument lies at the start of the buffer, in C layout with 64-bit longs and pointers:
//! `drm_version` is three 32-bit version numbers at 0, 4 and 8 and, from 16 on, a length and a
//! pointer for each text; `drm_unique` is a length at 0 and a pointer at 8; `drm_prime_handle`
//! is a handle at 0, flags at 4 and a file descriptor at 8.
use crate::bytes::{
    get_u64, law_read_back_u32, law_read_back_u64, le32, le64, put32, put64, put_u32, put_u64,
};
use crate::error::VfsError;
use crate::request::DrmField;
use vstd::prelude::*;

verus! {

/// The size of `drm_version`.
pub const DRM_VERSION_SIZE: usize = 64;

/// The size of `drm_unique`.
pub const DRM_UNIQUE_SIZE: usize = 16;

/// The length of a C string: how many bytes come before the first zero.
pub open spec fn c_len(value: Seq<u8>) -> nat
    decreases value.len(),
{
    if value.len() == 0 || value[0] == 0 {
        0
    } else {
        1 + c_len(value.drop_first())
    }
}

proof fn lemma_c_len(value: Seq<u8>, n: int)
    requires
        0 <= n < value.len(),
        value[n] == 0,
        forall|i: int| 0 <= i < n ==> value[i] != 0,
    ensures
        c_len(value) == n,
    decreases n,
{
    if n > 0 {
        let rest = value.drop_first();
        assert(forall|i: int| 0 <= i < n - 1 ==> rest[i] == value[i + 1]);
        lemma_c_len(rest, n - 1);
    }
}

proof fn lemma_c_len_is_first_zero(value: Seq<u8>)
    ensures
        c_len(value) <= value.len(),
        c_len(value) < value.len() ==> value[c_len(value) as int] == 0,
        forall|i: int| 0 <= i < c_len(value) ==> #[trigger] value[i] != 0,
    decreases value.len(),
{
    if value.len() > 0 && value[0] != 0 {
        let rest = value.drop_first();
        lemma_c_len_is_first_zero(rest);
        assert forall|i: int| 0 <= i < c_len(value) implies #[trigger] value[i] != 0 by {
            if i > 0 {
                assert(rest[i - 1] == value[i]);
            }
        }
    }
}

impl DrmField {
    /// The text, with its closing zero.
    pub open spec fn text(self) -> Seq<u8> {
        match self {
            // "rknpu"
            DrmField::Name => seq![0x72u8, 0x6b, 0x6e, 0x70, 0x75, 0],
            // "20240828"
            DrmField::Date => seq![0x32u8, 0x30, 0x32, 0x34, 0x30, 0x38, 0x32, 0x38, 0],
            // "RKNPU driver"
            DrmField::Desc => seq![
                0x52u8,
                0x4b,
                0x4e,
                0x50,
                0x55,
                0x20,
                0x64,
                0x72,
                0x69,
                0x76,
                0x65,
                0x72,
                0,
            ],
        }
    }

    /// How many texts come after this one.
    pub open spec fn rest(self) -> nat {
        match self {
            DrmField::Name => 2,
            DrmField::Date => 1,
            DrmField::Desc => 0,
        }
    }

    /// The text that comes after this one.
    pub open spec fn following(self) -> Option<DrmField> {
        match self {
            DrmField::Name => Some(DrmField::Date),
            DrmField::Date => Some(DrmField::Desc),
            DrmField::Desc => None,
        }
    }

    /// Where the length of the text lies; its pointer follows.
    pub open spec fn at(self) -> int {
        match self {
            DrmField::Name => 16,
            DrmField::Date => 32,
            DrmField::Desc => 48,
        }
    }

    /// The text, with its closing zero.
    pub fn value(self) -> (r: Vec<u8>)
        ensures
            r@ == self.text(),
    {
        match self {
            DrmField::Name => vec![0x72u8, 0x6b, 0x6e, 0x70, 0x75, 0],
            DrmField::Date => vec![0x32u8, 0x30, 0x32, 0x34, 0x30, 0x38, 0x32, 0x38, 0],
            DrmField::Desc => vec![
                0x52u8,
                0x4b,
                0x4e,
                0x50,
                0x55,
                0x20,
                0x64,
                0x72,
                0x69,
                0x76,
                0x65,
                0x72,
                0,
            ],
        }
    }

    /// The text that comes after this one.
    pub fn next(self) -> (r: Option<DrmField>)
        ensures
            r == self.following(),
    {
        match self {
            DrmField::Name => Some(DrmField::Date),
            DrmField::Date => Some(DrmField::Desc),
            DrmField::Desc => None,
        }
    }

    fn offset(self) -> (r: usize)
        ensures
            r == self.at(),
    {
        match self {
            DrmField::Name => 16,
            DrmField::Date => 32,
            DrmField::Desc => 48,
        }
    }
}

/// How much of a text of `len` bytes is copied into the `room` bytes at address `buf`: as much
/// as fits, and nothing where that is nothing or the address is null.
pub open spec fn copy_count(buf: u64, room: u64, len: nat) -> Option<usize> {
    let count = if len > room {
        room as int
    } else {
        len as int
    };
    if count > 0 && buf != 0 {
        Some(count as usize)
    } else {
        None
    }
}

/// Prepares the copy of a C string to the user buffer `buf` of `buf_len` bytes, as the Linux
/// kernel's `drm_copy_field` does. `buf_len` becomes the length of the string; the result says
/// how many bytes to copy, if any.
pub fn drm_copy_field(buf: u64, buf_len: &mut u64, value: Option<&[u8]>) -> (copy: Option<usize>)
    requires
        value matches Some(v) ==> c_len(v@) < v@.len(),
    ensures
        value is None ==> *final(buf_len) == 0 && copy is None,
        value matches Some(v) ==> {
            &&& *final(buf_len) == c_len(v@)
            &&& copy == copy_count(buf, *old(buf_len), c_len(v@))
        },
{
    let text = match value {
        Some(text) => text,
        None => {
            *buf_len = 0;
            return None;
        },
    };
    let mut len: usize = 0;
    proof {
        lemma_c_len_is_first_zero(text@);
    }
    while text[len] != 0
        invariant
            len <= c_len(text@) < text@.len(),
            forall|i: int| 0 <= i < len ==> text@[i] != 0,
            text@[c_len(text@) as int] == 0,
        decreases text@.len() - len,
    {
        len = len + 1;
    }
    proof {
        lemma_c_len(text@, len as int);
    }
    let original_buf_len: u64 = *buf_len;
    *buf_len = len as u64;
    let copy_len: usize = if len as u64 > original_buf_len {
        original_buf_len as usize
    } else {
        len
    };
    if copy_len > 0 && buf != 0 {
        Some(copy_len)
    } else {
        None
    }
}

/// A copy never writes past the end of the user's buffer, nor reads past the string.
pub proof fn law_copy_stays_in_bounds(buf: u64, room: u64, len: nat)
    requires
        len <= usize::MAX,
    ensures
        copy_count(buf, room, len) matches Some(n) ==> 0 < n <= room && n <= len && buf != 0,
{
}

/// The buffer once the version numbers are in it.
pub open spec fn with_numbers(data: Seq<u8>) -> Seq<u8> {
    put32(put32(put32(data, 0, 0), 4, 9), 8, 8)
}

/// The buffer once the length of a text is in it.
pub open spec fn with_length(data: Seq<u8>, field: DrmField) -> Seq<u8> {
    put64(data, field.at(), c_len(field.text()) as u64)
}

/// The buffer once the lengths of a text and of all that follow it are in it.
pub open spec fn with_lengths(data: Seq<u8>, field: DrmField) -> Seq<u8>
    decreases field.rest(),
{
    match field.following() {
        Some(next) => with_lengths(with_length(data, field), next),
        None => with_length(data, field),
    }
}

/// How the answer to a version query goes on.
#[derive(Debug, Clone, Copy, PartialEq, Eq)]
pub enum VersionStep {
    /// `len` bytes of the text `field` are to be copied to the user address `dst`; after that
    /// come the texts that follow.
    Copy { field: DrmField, dst: u64, len: usize },
    /// The answer is complete.
    Complete,
}

/// The next text, from `field` on, that has to be copied.
pub open spec fn next_copy(data: Seq<u8>, field: DrmField) -> VersionStep
    decreases field.rest(),
{
    let dst = le64(data, field.at() + 8);
    match copy_count(dst, le64(data, field.at()), c_len(field.text())) {
        Some(len) => VersionStep::Copy { field, dst, len },
        None => match field.following() {
            Some(next) => next_copy(with_length(data, field), next),
            None => VersionStep::Complete,
        },
    }
}

/// The buffer by the time that the next text, from `field` on, has to be copied: the lengths up
/// to that text are in it.
pub open spec fn until_copy(data: Seq<u8>, field: DrmField) -> Seq<u8>
    decreases field.rest(),
{
    let dst = le64(data, field.at() + 8);
    match copy_count(dst, le64(data, field.at()), c_len(field.text())) {
        Some(len) => with_length(data, field),
        None => match field.following() {
            Some(next) => until_copy(with_length(data, field), next),
            None => with_length(data, field),
        },
    }
}

proof fn lemma_texts()
    ensures
        c_len(DrmField::Name.text()) == 5,
        c_len(DrmField::Date.text()) == 8,
        c_len(DrmField::Desc.text()) == 12,
        forall|f: DrmField| c_len(#[trigger] f.text()) < f.text().len(),
{
    lemma_c_len(DrmField::Name.text(), 5);
    lemma_c_len(DrmField::Date.text(), 8);
    lemma_c_len(DrmField::Desc.text(), 12);
    assert forall|f: DrmField| c_len(#[trigger] f.text()) < f.text().len() by {
        match f {
            DrmField::Name => {},
            DrmField::Date => {},
            DrmField::Desc => {},
        }
    }
}

/// Goes on with the answer to a version query from the text `field` on, up to the next text
/// that has to be copied.
pub fn drm_version_from(data: &mut Vec<u8>, field: DrmField) -> (r: VersionStep)
    requires
        old(data)@.len() >= DRM_VERSION_SIZE,
    ensures
        r == next_copy(old(data)@, field),
        final(data)@ == until_copy(old(data)@, field),
        final(data)@.len() == old(data)@.len(),
    decreases field.rest(),
{
    proof {
        lemma_texts();
    }
    let at: usize = field.offset();
    let dst: u64 = get_u64(data.as_slice(), at + 8);
    let mut len: u64 = get_u64(data.as_slice(), at);
    let text = field.value();
    let copy = drm_copy_field(dst, &mut len, Some(text.as_slice()));
    put_u64(data, at, len);
    match copy {
        Some(count) => VersionStep::Copy { field, dst, len: count },
        None => match field.next() {
            Some(next) => drm_version_from(data, next),
            None => VersionStep::Complete,
        },
    }
}

/// Begins the answer to a version query: the version numbers, and the texts up to the first one
/// that has to be copied.
pub fn drm_version(data: &mut Vec<u8>) -> (r: VersionStep)
    requires
        old(data)@.len() >= DRM_VERSION_SIZE,
    ensures
        r == next_copy(with_numbers(old(data)@), DrmField::Name),
        final(data)@ == until_copy(with_numbers(old(data)@), DrmField::Name),
        final(data)@.len() == old(data)@.len(),
{
    put_u32(data, 0, 0);
    put_u32(data, 4, 9);
    put_u32(data, 8, 8);
    drm_version_from(data, DrmField::Name)
}

/// Which texts have to be copied makes no difference to the buffer that the query ends with:
/// stopping for a copy and going on after it fills in the same lengths as not stopping.
pub proof fn law_copies_leave_lengths_alone(data: Seq<u8>, field: DrmField)
    ensures
        with_lengths(data, field) == match next_copy(data, field) {
            VersionStep::Copy { field: stop, dst, len } => match stop.following() {
                Some(next) => with_lengths(until_copy(data, field), next),
                None => until_copy(data, field),
            },
            VersionStep::Complete => until_copy(data, field),
        },
    decreases field.rest(),
{
    match field.following() {
        Some(next) => law_copies_leave_lengths_alone(with_length(data, field), next),
        None => {},
    }
}

/// A completed version query reports version 0.9.8 and the true length of every text, whatever
/// lengths the user passed in, and changes nothing else.
pub proof fn law_version_answer(data: Seq<u8>)
    requires
        data.len() >= DRM_VERSION_SIZE,
    ensures
        ({
            let answer = with_lengths(with_numbers(data), DrmField::Name);
            &&& answer.len() == data.len()
            &&& le32(answer, 0) == 0
            &&& le32(answer, 4) == 9
            &&& le32(answer, 8) == 8
            &&& le64(answer, 16) == 5
            &&& le64(answer, 32) == 8
            &&& le64(answer, 48) == 12
            &&& forall|i: int|
                12 <= i < data.len() && !(16 <= i < 24) && !(32 <= i < 40) && !(48 <= i < 56)
                    ==> answer[i] == data[i]
        }),
{
    lemma_texts();
    let n1 = put32(data, 0, 0);
    let n2 = put32(n1, 4, 9);
    let n3 = put32(n2, 8, 8);
    law_read_back_u32(data, 0, 0);
    law_read_back_u32(n1, 4, 9);
    law_read_back_u32(n2, 8, 8);
    let t1 = put64(n3, 16, 5);
    let t2 = put64(t1, 32, 8);
    let t3 = put64(t2, 48, 12);
    law_read_back_u64(n3, 16, 5);
    law_read_back_u64(t1, 32, 8);
    law_read_back_u64(t2, 48, 12);
    reveal_with_fuel(with_lengths, 3);
    assert(with_lengths(with_numbers(data), DrmField::Name) == t3);
    assert forall|i: int| 0 <= i < 4 implies t3[i] == n1[i] by {
        assert(t3[i] == t2[i] && t2[i] == t1[i] && t1[i] == n3[i] && n3[i] == n2[i] && n2[i]
            == n1[i]);
    }
    assert forall|i: int| 4 <= i < 8 implies t3[i] == n2[i] by {
        assert(t3[i] == t2[i] && t2[i] == t1[i] && t1[i] == n3[i] && n3[i] == n2[i]);
    }
    assert forall|i: int| 8 <= i < 12 implies t3[i] == n3[i] by {
        assert(t3[i] == t2[i] && t2[i] == t1[i] && t1[i] == n3[i]);
    }
    assert forall|i: int| 16 <= i < 24 implies t3[i] == t1[i] by {
        assert(t3[i] == t2[i] && t2[i] == t1[i]);
    }
    assert forall|i: int| 32 <= i < 40 implies t3[i] == t2[i] by {
        assert(t3[i] == t2[i]);
    }
    assert forall|i: int|
        12 <= i < data.len() && !(16 <= i < 24) && !(32 <= i < 40) && !(48 <= i < 56) implies t3[i]
        == data[i] by {
        assert(t3[i] == t2[i] && t2[i] == t1[i] && t1[i] == n3[i] && n3[i] == n2[i] && n2[i]
            == n1[i] && n1[i] == data[i]);
    }
}

/// Answers a query for the unique name of the device: it has none, so that the length of the name
/// becomes zero. The pointer and what follows it stay as they are.
pub fn drm_get_unique(data: &mut Vec<u8>) -> (r: Result<(), VfsError>)
    requires
        old(data)@.len() >= DRM_UNIQUE_SIZE,
    ensures
        r == Ok::<(), VfsError>(()),
        final(data)@ == put64(old(data)@, 0, 0),
        final(data)@.len() == old(data)@.len(),
        le64(final(data)@, 0) == 0,
        final(data)@.skip(8) == old(data)@.skip(8),
{
    put_u64(data, 0, 0);
    proof {
        law_read_back_u64(old(data)@, 0, 0);
    }
    Ok(())
}

/// Answers a request to name a buffer globally, which is always refused.
pub fn drm_gem_flink_ioctl() -> (r: Result<usize, VfsError>)
    ensures
        r == Err::<usize, VfsError>(VfsError::NotFound),
{
    Err(VfsError::NotFound)
}

/// The length of a C string is where its first zero lies.
pub proof fn law_length_is_first_zero(value: Seq<u8>)
    ensures
        c_len(value) <= value.len(),
        c_len(value) < value.len() ==> value[c_len(value) as int] == 0,
        forall|i: int| 0 <= i < c_len(value) ==> #[trigger] value[i] != 0,
{
    lemma_c_len_is_first_zero(value);
}

/// What the texts say, character by character, and how long they are.
pub proof fn law_what_the_texts_say()
    ensures
        c_len(DrmField::Name.text()) == "rknpu"@.len() == 5,
        c_len(DrmField::Date.text()) == "20240828"@.len() == 8,
        c_len(DrmField::Desc.text()) == "RKNPU driver"@.len() == 12,
        forall|i: int| 0 <= i < 5 ==> #[trigger] DrmField::Name.text()[i] as char == "rknpu"@[i],
        forall|i: int|
            0 <= i < 8 ==> #[trigger] DrmField::Date.text()[i] as char == "20240828"@[i],
        forall|i: int|
            0 <= i < 12 ==> #[trigger] DrmField::Desc.text()[i] as char == "RKNPU driver"@[i],
{
    lemma_texts();
    reveal_strlit("rknpu");
    reveal_strlit("20240828");
    reveal_strlit("RKNPU driver");
}

/// As much of a text is copied as there is and as there is room for, and it is copied whenever
/// that is something and there is an address to copy it to.
pub proof fn law_copy_is_as_much_as_fits(buf: u64, room: u64, len: nat)
    requires
        len <= usize::MAX,
    ensures
        copy_count(buf, room, len) is Some <==> buf != 0 && room > 0 && len > 0,
        copy_count(buf, room, len) matches Some(n) ==> n <= room && n <= len && (n == room || n
            == len),
{
}

/// The texts come in the order name, date, description, and each has 16 bytes of the argument,
/// from byte 16 on.
pub proof fn law_layout_of_the_texts()
    ensures
        DrmField::Name.at() == 16,
        DrmField::Date.at() == 32,
        DrmField::Desc.at() == 48,
        DrmField::Name.following() == Some(DrmField::Date),
        DrmField::Date.following() == Some(DrmField::Desc),
        DrmField::Desc.following() is None,
        DrmField::Name.rest() == 2,
        DrmField::Date.rest() == 1,
        DrmField::Desc.rest() == 0,
{
}

/// Whether the user has a buffer for a text: its pointer, which follows its room, is not null, and
/// its room is not zero.
pub open spec fn wants_text(data: Seq<u8>, field: DrmField) -> bool {
    le64(data, field.at() + 8) != 0 && le64(data, field.at()) != 0
}

pub(crate) proof fn lemma_same_le64(s: Seq<u8>, t: Seq<u8>, at: int)
    requires
        forall|i: int| at <= i < at + 8 ==> s[i] == t[i],
    ensures
        le64(s, at) == le64(t, at),
{
    assert(s[at] == t[at] && s[at + 1] == t[at + 1] && s[at + 2] == t[at + 2] && s[at + 3] == t[at
        + 3]);
    assert(s[at + 4] == t[at + 4] && s[at + 5] == t[at + 5] && s[at + 6] == t[at + 6] && s[at + 7]
        == t[at + 7]);
}

proof fn lemma_with_length(data: Seq<u8>, field: DrmField)
    requires
        data.len() >= DRM_VERSION_SIZE,
    ensures
        with_length(data, field).len() == data.len(),
        le64(with_length(data, field), field.at()) == c_len(field.text()),
        forall|i: int|
            0 <= i < data.len() && !(field.at() <= i < field.at() + 8) ==> #[trigger] with_length(
                data,
                field,
            )[i] == data[i],
{
    lemma_texts();
    law_read_back_u64(data, field.at(), c_len(field.text()) as u64);
}

proof fn lemma_other_texts(data: Seq<u8>, field: DrmField, f: DrmField)
    requires
        data.len() >= DRM_VERSION_SIZE,
    ensures
        le64(with_length(data, field), f.at() + 8) == le64(data, f.at() + 8),
        f != field ==> le64(with_length(data, field), f.at()) == le64(data, f.at()),
        f != field ==> wants_text(with_length(data, field), f) == wants_text(data, f),
{
    lemma_with_length(data, field);
    lemma_same_le64(with_length(data, field), data, f.at() + 8);
    if f != field {
        lemma_same_le64(with_length(data, field), data, f.at());
    }
}

proof fn lemma_until_copy(data: Seq<u8>, field: DrmField)
    requires
        data.len() >= DRM_VERSION_SIZE,
    ensures
        until_copy(data, field).len() == data.len(),
        forall|i: int| 0 <= i < field.at() ==> #[trigger] until_copy(data, field)[i] == data[i],
        next_copy(data, field) matches VersionStep::Copy { field: stop, dst, len } ==> forall|
            i: int,
        |
            stop.at() + 8 <= i < data.len() ==> #[trigger] until_copy(data, field)[i] == data[i],
        next_copy(data, field) matches VersionStep::Copy { field: stop, dst, len } ==> stop.at()
            >= field.at(),
    decreases field.rest(),
{
    lemma_with_length(data, field);
    let after = with_length(data, field);
    match field.following() {
        Some(next) => lemma_until_copy(after, next),
        None => {},
    }
}

/// A text is copied to where the user wants it: the address is the 64-bit pointer that the
/// argument holds for it. It is the first text, from `field` on, that the user has a buffer for;
/// if there is none, nothing is copied.
pub proof fn law_texts_go_to_their_buffers(data: Seq<u8>, field: DrmField)
    requires
        data.len() >= DRM_VERSION_SIZE,
    ensures
        match next_copy(data, field) {
            VersionStep::Copy { field: stop, dst, len } => {
                &&& stop.rest() <= field.rest()
                &&& wants_text(data, stop)
                &&& dst == le64(data, stop.at() + 8)
                &&& len <= le64(data, stop.at())
                &&& len <= c_len(stop.text())
                &&& len == le64(data, stop.at()) || len == c_len(stop.text())
                &&& forall|f: DrmField|
                    stop.rest() < f.rest() <= field.rest() ==> !#[trigger] wants_text(data, f)
            },
            VersionStep::Complete => forall|f: DrmField|
                f.rest() <= field.rest() ==> !#[trigger] wants_text(data, f),
        },
    decreases field.rest(),
{
    lemma_texts();
    let after = with_length(data, field);
    lemma_with_length(data, field);
    if copy_count(le64(data, field.at() + 8), le64(data, field.at()), c_len(field.text())) is None {
        assert(!wants_text(data, field));
        match field.following() {
            Some(next) => {
                law_texts_go_to_their_buffers(after, next);
                assert forall|f: DrmField| f.rest() <= next.rest() implies #[trigger] wants_text(
                    data,
                    f,
                ) == wants_text(after, f) by {
                    lemma_other_texts(data, field, f);
                }
                if let VersionStep::Copy { field: stop, dst, len } = next_copy(after, next) {
                    lemma_other_texts(data, field, stop);
                }
            },
            None => {},
        }
    }
}

/// By the time that a text is copied, no byte from its pointer on has changed, so that the
/// pointers and the rooms of the texts to come are as they were, nor has any byte before the
/// texts that have been gone through.
pub proof fn law_texts_to_come_stay_as_they_were(data: Seq<u8>, field: DrmField, i: int)
    requires
        data.len() >= DRM_VERSION_SIZE,
        0 <= i < data.len(),
    ensures
        until_copy(data, field).len() == data.len(),
        i < field.at() ==> until_copy(data, field)[i] == data[i],
        next_copy(data, field) matches VersionStep::Copy { field: stop, dst, len } ==> (stop.at()
            + 8 <= i ==> until_copy(data, field)[i] == data[i]),
{
    lemma_until_copy(data, field);
}

/// The version numbers take the first twelve bytes of the argument, and no other.
pub proof fn law_numbers_lie_first(data: Seq<u8>)
    requires
        data.len() >= DRM_VERSION_SIZE,
    ensures
        with_numbers(data).len() == data.len(),
        forall|i: int| 12 <= i < data.len() ==> #[trigger] with_numbers(data)[i] == data[i],
        forall|f: DrmField| #[trigger] wants_text(with_numbers(data), f) == wants_text(data, f),
{
    let n = with_numbers(data);
    assert forall|f: DrmField| #[trigger] wants_text(n, f) == wants_text(data, f) by {
        lemma_same_le64(n, data, f.at());
        lemma_same_le64(n, data, f.at() + 8);
    }
}

} // verus!
