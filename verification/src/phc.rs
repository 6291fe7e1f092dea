//! The layout of an encoded password hash.
//!
//! A stored hash is a string of the form
//!
//! ```text
//! $<id>$v=<version>$<param>=<value>(,<param>=<value>)*$<salt>$<hash>
//! ```
//!
//! This module states that layout over the bytes of the string and decides it.
//! It looks at the separators only: which characters may stand inside a field,
//! and how a field decodes, is left to the hashing library.

use vstd::prelude::*;
use vstd::slice::slice_subrange;

verus! {

/// `$`, which starts every field.
pub const FIELD_SEPARATOR: u8 = 0x24;

/// `,`, which stands between two parameters.
pub const PARAM_SEPARATOR: u8 = 0x2c;

/// `=`, which stands between a parameter's name and its value.
pub const PAIR_SEPARATOR: u8 = 0x3d;

/// `v`, the first byte of the version field.
pub const VERSION_TAG: u8 = 0x76;

/// The index of the first `sep` in `s`, or `s.len()` where `s` holds none.
pub open spec fn first_index(s: Seq<u8>, sep: u8) -> nat
    decreases s.len(),
{
    if s.len() == 0 || s[0] == sep {
        0
    } else {
        1 + first_index(s.drop_first(), sep)
    }
}

/// The pieces of `s` that lie between occurrences of `sep`, in order.
/// There is always one piece more than there are separators, and a piece
/// is empty where two separators meet or one stands at an end.
pub open spec fn fields(s: Seq<u8>, sep: u8) -> Seq<Seq<u8>>
    decreases s.len(),
{
    let i = first_index(s, sep) as int;
    if i >= s.len() {
        seq![s]
    } else {
        seq![s.take(i)] + fields(s.skip(i + 1), sep)
    }
}

/// `v=<version>` with a version of at least one byte.
pub open spec fn is_version(field: Seq<u8>) -> bool {
    &&& field.len() > 2
    &&& field[0] == VERSION_TAG
    &&& field[1] == PAIR_SEPARATOR
}

/// `<param>=<value>`: one `=`, with at least one byte on either side.
pub open spec fn is_param(item: Seq<u8>) -> bool {
    let sides = fields(item, PAIR_SEPARATOR);
    &&& sides.len() == 2
    &&& sides[0].len() > 0
    &&& sides[1].len() > 0
}

/// `<param>=<value>(,<param>=<value>)*`.
pub open spec fn is_param_list(field: Seq<u8>) -> bool {
    let items = fields(field, PARAM_SEPARATOR);
    forall|k: int| 0 <= k < items.len() ==> is_param(#[trigger] items[k])
}

/// Whether `s` is laid out as an encoded password hash: a `$` in front of
/// each of exactly five fields, which are an identifier, a version, a
/// parameter list, a salt and a digest, none of them empty.
pub open spec fn layout(s: Seq<u8>) -> bool {
    let f = fields(s, FIELD_SEPARATOR);
    &&& f.len() == 6
    &&& f[0].len() == 0
    &&& f[1].len() > 0
    &&& is_version(f[2])
    &&& is_param_list(f[3])
    &&& f[4].len() > 0
    &&& f[5].len() > 0
}

/// `parts` written one behind the other, with `sep` between each two.
pub open spec fn joined(parts: Seq<Seq<u8>>, sep: u8) -> Seq<u8>
    decreases parts.len(),
{
    if parts.len() == 0 {
        Seq::empty()
    } else if parts.len() == 1 {
        parts[0]
    } else {
        parts[0] + seq![sep] + joined(parts.drop_first(), sep)
    }
}

/// The bytes of the encoded hash that has the given five fields.
pub open spec fn encoded(
    id: Seq<u8>,
    version: Seq<u8>,
    params: Seq<u8>,
    salt: Seq<u8>,
    digest: Seq<u8>,
) -> Seq<u8> {
    seq![FIELD_SEPARATOR] + id + seq![FIELD_SEPARATOR, VERSION_TAG, PAIR_SEPARATOR] + version
        + seq![FIELD_SEPARATOR] + params + seq![FIELD_SEPARATOR] + salt + seq![FIELD_SEPARATOR]
        + digest
}

/// `first_index` is the one position that holds `sep` and has none before it.
pub proof fn lemma_first_index(s: Seq<u8>, sep: u8, k: int)
    requires
        0 <= k <= s.len(),
        forall|j: int| 0 <= j < k ==> s[j] != sep,
        k < s.len() ==> s[k] == sep,
    ensures
        first_index(s, sep) == k,
    decreases k,
{
    if k > 0 {
        lemma_first_index(s.drop_first(), sep, k - 1);
    }
}

/// `first_index` stays inside `s` and passes over no separator.
pub proof fn lemma_first_index_bounds(s: Seq<u8>, sep: u8)
    ensures
        first_index(s, sep) <= s.len(),
        forall|j: int| 0 <= j < first_index(s, sep) ==> s[j] != sep,
        first_index(s, sep) < s.len() ==> s[first_index(s, sep) as int] == sep,
    decreases s.len(),
{
    if s.len() > 0 && s[0] != sep {
        let t = s.drop_first();
        lemma_first_index_bounds(t, sep);
        assert forall|j: int| 0 <= j < first_index(s, sep) implies s[j] != sep by {
            if j > 0 {
                assert(s[j] == t[j - 1]);
            }
        }
    }
}

/// A piece that holds no separator is its own and only field.
pub proof fn lemma_fields_of_piece(a: Seq<u8>, sep: u8)
    requires
        !a.contains(sep),
    ensures
        fields(a, sep) == seq![a],
{
    lemma_first_index(a, sep, a.len() as int);
}

/// Behind a piece that holds no separator, and a separator, come the
/// fields of what follows.
pub proof fn lemma_fields_of_joined(a: Seq<u8>, sep: u8, b: Seq<u8>)
    requires
        !a.contains(sep),
    ensures
        fields(a + seq![sep] + b, sep) == seq![a] + fields(b, sep),
{
    let s = a + seq![sep] + b;
    lemma_first_index(s, sep, a.len() as int);
    assert(s.take(a.len() as int) =~= a);
    assert(s.skip(a.len() as int + 1) =~= b);
}

/// Cutting a string into fields loses nothing: there is at least one field,
/// no field holds the separator, and the fields joined are the string.
pub proof fn lemma_fields_rejoin(s: Seq<u8>, sep: u8)
    ensures
        fields(s, sep).len() >= 1,
        forall|k: int|
            0 <= k < fields(s, sep).len() ==> !(#[trigger] fields(s, sep)[k]).contains(sep),
        joined(fields(s, sep), sep) == s,
    decreases s.len(),
{
    let i = first_index(s, sep) as int;
    lemma_first_index_bounds(s, sep);
    if i < s.len() {
        let rest = s.skip(i + 1);
        lemma_fields_rejoin(rest, sep);
        let f = fields(s, sep);
        assert(f.drop_first() =~= fields(rest, sep));
        assert forall|k: int| 0 <= k < f.len() implies !(#[trigger] f[k]).contains(sep) by {
            if k > 0 {
                assert(f[k] == fields(rest, sep)[k - 1]);
            }
        }
    }
}

/// The grammar read forwards: five fields, none empty and none holding a
/// `$`, the third a parameter list, make a string with the layout when they
/// are written one behind the other, and `fields` finds them again.
pub proof fn lemma_encoded_has_layout(
    id: Seq<u8>,
    version: Seq<u8>,
    params: Seq<u8>,
    salt: Seq<u8>,
    digest: Seq<u8>,
)
    requires
        id.len() > 0 && !id.contains(FIELD_SEPARATOR),
        version.len() > 0 && !version.contains(FIELD_SEPARATOR),
        is_param_list(params) && !params.contains(FIELD_SEPARATOR),
        salt.len() > 0 && !salt.contains(FIELD_SEPARATOR),
        digest.len() > 0 && !digest.contains(FIELD_SEPARATOR),
    ensures
        fields(encoded(id, version, params, salt, digest), FIELD_SEPARATOR) == seq![
            Seq::<u8>::empty(),
            id,
            seq![VERSION_TAG, PAIR_SEPARATOR] + version,
            params,
            salt,
            digest,
        ],
        layout(encoded(id, version, params, salt, digest)),
{
    let sep = FIELD_SEPARATOR;
    let tagged = seq![VERSION_TAG, PAIR_SEPARATOR] + version;
    let t5 = digest;
    let t4 = salt + seq![sep] + t5;
    let t3 = params + seq![sep] + t4;
    let t2 = tagged + seq![sep] + t3;
    let t1 = id + seq![sep] + t2;
    let t0 = Seq::<u8>::empty() + seq![sep] + t1;
    assert(t0 =~= encoded(id, version, params, salt, digest));
    assert(!tagged.contains(sep)) by {
        if tagged.contains(sep) {
            let j = choose|j: int| 0 <= j < tagged.len() && tagged[j] == sep;
            assert(version[j - 2] == sep);
        }
    }
    lemma_fields_of_piece(t5, sep);
    lemma_fields_of_joined(salt, sep, t5);
    lemma_fields_of_joined(params, sep, t4);
    lemma_fields_of_joined(tagged, sep, t3);
    lemma_fields_of_joined(id, sep, t2);
    lemma_fields_of_joined(Seq::<u8>::empty(), sep, t1);
}

/// The grammar read backwards: a string with the layout is its five fields
/// written one behind the other, and none of them holds a `$`.
pub proof fn lemma_layout_is_encoded(s: Seq<u8>)
    requires
        layout(s),
    ensures
        ({
            let f = fields(s, FIELD_SEPARATOR);
            &&& s == encoded(f[1], f[2].skip(2), f[3], f[4], f[5])
            &&& forall|k: int| 0 <= k < 6 ==> !(#[trigger] f[k]).contains(FIELD_SEPARATOR)
        }),
{
    let sep = FIELD_SEPARATOR;
    let f = fields(s, sep);
    lemma_fields_rejoin(s, sep);
    let f1 = f.drop_first();
    let f2 = f1.drop_first();
    let f3 = f2.drop_first();
    let f4 = f3.drop_first();
    let f5 = f4.drop_first();
    assert(joined(f5, sep) == f[5]);
    assert(joined(f4, sep) == f[4] + seq![sep] + joined(f5, sep));
    assert(joined(f3, sep) == f[3] + seq![sep] + joined(f4, sep));
    assert(joined(f2, sep) == f[2] + seq![sep] + joined(f3, sep));
    assert(joined(f1, sep) == f[1] + seq![sep] + joined(f2, sep));
    assert(joined(f, sep) == f[0] + seq![sep] + joined(f1, sep));
    assert(f[2] =~= seq![VERSION_TAG, PAIR_SEPARATOR] + f[2].skip(2));
    assert(s =~= encoded(f[1], f[2].skip(2), f[3], f[4], f[5]));
}

/// A string with the layout of an encoded hash begins with a `$`: nothing
/// that begins otherwise has the layout.
pub proof fn lemma_layout_begins_with_separator(s: Seq<u8>)
    requires
        layout(s),
    ensures
        s.len() > 0,
        s[0] == FIELD_SEPARATOR,
{
    lemma_first_index_bounds(s, FIELD_SEPARATOR);
}

/// Cuts `s` at every `sep`.
pub fn split<'a>(s: &'a [u8], sep: u8) -> (parts: Vec<&'a [u8]>)
    ensures
        parts@.len() == fields(s@, sep).len(),
        forall|k: int| 0 <= k < parts@.len() ==> (#[trigger] parts@[k])@ == fields(s@, sep)[k],
{
    let mut parts: Vec<&'a [u8]> = Vec::new();
    let ghost mut done: Seq<Seq<u8>> = Seq::empty();
    let mut start: usize = 0;
    let mut i: usize = 0;
    proof {
        assert(s@.skip(0) =~= s@);
    }
    while i < s.len()
        invariant
            0 <= start <= i <= s.len(),
            forall|j: int| start <= j < i ==> s@[j] != sep,
            parts@.len() == done.len(),
            forall|k: int| 0 <= k < parts@.len() ==> (#[trigger] parts@[k])@ == done[k],
            fields(s@, sep) == done + fields(s@.skip(start as int), sep),
        decreases s.len() - i,
    {
        if s[i] == sep {
            let piece = slice_subrange(s, start, i);
            proof {
                let rest = s@.skip(start as int);
                lemma_first_index(rest, sep, i - start);
                assert(rest.take(i - start) =~= s@.subrange(start as int, i as int));
                assert(rest.skip(i - start + 1) =~= s@.skip(i + 1));
                assert(done + (seq![piece@] + fields(s@.skip(i + 1), sep)) =~= done.push(piece@)
                    + fields(s@.skip(i + 1), sep));
                done = done.push(piece@);
            }
            parts.push(piece);
            start = i + 1;
        }
        i += 1;
    }
    let piece = slice_subrange(s, start, s.len());
    proof {
        let rest = s@.skip(start as int);
        lemma_first_index(rest, sep, s.len() - start);
    }
    parts.push(piece);
    parts
}

/// Decides `is_version`.
pub fn has_version(field: &[u8]) -> (ok: bool)
    ensures
        ok == is_version(field@),
{
    field.len() > 2 && field[0] == VERSION_TAG && field[1] == PAIR_SEPARATOR
}

/// Decides `is_param`.
pub fn has_param(item: &[u8]) -> (ok: bool)
    ensures
        ok == is_param(item@),
{
    let sides = split(item, PAIR_SEPARATOR);
    sides.len() == 2 && sides[0].len() > 0 && sides[1].len() > 0
}

/// Decides `is_param_list`.
pub fn has_param_list(field: &[u8]) -> (ok: bool)
    ensures
        ok == is_param_list(field@),
{
    let items = split(field, PARAM_SEPARATOR);
    let mut k: usize = 0;
    while k < items.len()
        invariant
            0 <= k <= items@.len(),
            items@.len() == fields(field@, PARAM_SEPARATOR).len(),
            forall|j: int|
                0 <= j < items@.len() ==> (#[trigger] items@[j])@ == fields(
                    field@,
                    PARAM_SEPARATOR,
                )[j],
            forall|j: int| 0 <= j < k ==> is_param(#[trigger] fields(field@, PARAM_SEPARATOR)[j]),
        decreases items@.len() - k,
    {
        if !has_param(items[k]) {
            return false;
        }
        k += 1;
    }
    true
}

/// Decides `layout`.
pub fn has_layout(s: &[u8]) -> (ok: bool)
    ensures
        ok == layout(s@),
{
    let f = split(s, FIELD_SEPARATOR);
    if f.len() != 6 {
        return false;
    }
    if f[0].len() != 0 || f[1].len() == 0 || f[4].len() == 0 || f[5].len() == 0 {
        return false;
    }
    has_version(f[2]) && has_param_list(f[3])
}

} // verus!
