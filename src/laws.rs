use vstd::prelude::*;

use crate::coord::Coord;
use crate::hayson::{
    coord_fields, coord_from_json, kind_key, number_fields, number_from_json, plain, ref_fields,
    ref_from_json, symbol_fields, symbol_from_json, tag_error, tag_fields, uri_fields,
    uri_from_json, xstr_fields, xstr_from_json, HaysonErrorKind,
};
use crate::xstr::XstrView;
use crate::hsref::ref_grammar;
use crate::json::{is_flat_object, json_get, lemma_lookup_absent, lemma_lookup_at, Json};
use crate::number::{is_finite, is_nan, lemma_finite_classification, NumberView, NAN_BITS};
use crate::symbol::symbol_grammar;
use crate::text::{first_occurrence, lemma_first_occurrence_from_bounds, occurs_at};

verus! {

proof fn lemma_number_keys_distinct()
    ensures
        kind_key() != "val"@,
        kind_key() != "unit"@,
        "val"@ != "unit"@,
{
    reveal_strlit("_kind");
    reveal_strlit("val");
    reveal_strlit("unit");
    assert(kind_key().len() == 5);
    assert("val"@.len() == 3);
    assert("unit"@.len() == 4);
}

/// What the lookups in a decoded number object find, when the object was
/// written with a tag, a `val` and possibly a `unit`.
proof fn lemma_number_object_lookups(j: Json, n: NumberView, evaluated: u64)
    requires
        is_flat_object(j, number_fields(n, evaluated)),
    ensures
        j matches Json::Object(entries) && json_get(j, kind_key()) == Some(entries@[0].1)
            && json_get(j, "val"@) == Some(entries@[1].1) && (entries@.len() == 3 ==> json_get(
            j,
            "unit"@,
        ) == Some(entries@[2].1)) && (entries@.len() == 2 ==> json_get(j, "unit"@) is None),
{
    lemma_number_keys_distinct();
    let entries = j->Object_0@;
    lemma_lookup_at(entries, kind_key(), 0);
    lemma_lookup_at(entries, "val"@, 1);
    if entries.len() == 3 {
        lemma_lookup_at(entries, "unit"@, 2);
    } else {
        lemma_lookup_absent(entries, "unit"@);
    }
}

/// Decoding the encoding of a plain number with a finite value gives the
/// same number back, unit included.
pub proof fn lemma_plain_round_trip(n: NumberView, evaluated: u64, j: Json)
    requires
        n matches NumberView::Basic(b) && is_finite(b.value),
        is_flat_object(j, number_fields(n, evaluated)),
    ensures
        number_from_json(j) == Ok::<NumberView, crate::hayson::HaysonErrorKind>(n),
{
    lemma_finite_classification(n->Basic_0.value);
    lemma_number_object_lookups(j, n, evaluated);
}

/// Scientific notation does not survive encoding: decoding the encoding of a
/// number in scientific notation gives a plain number whose value is the
/// double that its significand times ten to its exponent evaluates to, with
/// the same unit, whenever that double is finite.
pub proof fn lemma_scientific_round_trip(n: NumberView, evaluated: u64, j: Json)
    requires
        n is Scientific,
        is_finite(evaluated),
        is_flat_object(j, number_fields(n, evaluated)),
    ensures
        number_from_json(j) == Ok::<NumberView, crate::hayson::HaysonErrorKind>(
            plain(evaluated, n.unit()),
        ),
{
    lemma_number_object_lookups(j, n, evaluated);
}

/// NaN and the infinities lose their unit in the encoding: decoding gives the
/// same kind of value back with no unit.
pub proof fn lemma_special_values_lose_unit(n: NumberView, evaluated: u64, j: Json)
    requires
        n matches NumberView::Basic(b) && !is_finite(b.value),
        is_flat_object(j, number_fields(n, evaluated)),
    ensures
        ({
            let value = n->Basic_0.value;
            &&& number_from_json(j) matches Ok(m) && m.unit() is None
            &&& is_nan(value) ==> number_from_json(j) == Ok::<
                NumberView,
                crate::hayson::HaysonErrorKind,
            >(plain(NAN_BITS, None))
            &&& !is_nan(value) ==> number_from_json(j) == Ok::<
                NumberView,
                crate::hayson::HaysonErrorKind,
            >(plain(value, None))
        }),
{
    lemma_finite_classification(n->Basic_0.value);
    lemma_number_object_lookups(j, n, evaluated);
    reveal_strlit("NaN");
    reveal_strlit("INF");
    reveal_strlit("-INF");
    assert("NaN"@[0] != "INF"@[0]);
    assert("-INF"@.len() != "INF"@.len());
    assert("-INF"@.len() != "NaN"@.len());
}

/// Every decoder checks the tag first: when the `_kind` key is missing, is
/// not a string or names another type, that failure is the one reported,
/// whatever other keys are missing or wrong.
pub proof fn lemma_tag_checked_first(j: Json)
    ensures
        tag_error(j, "ref"@) matches Some(e) ==> ref_from_json(j) == Err::<
            Seq<char>,
            crate::hayson::HaysonErrorKind,
        >(e),
        tag_error(j, "symbol"@) matches Some(e) ==> symbol_from_json(j) == Err::<
            Seq<char>,
            crate::hayson::HaysonErrorKind,
        >(e),
        tag_error(j, "uri"@) matches Some(e) ==> uri_from_json(j) == Err::<
            Seq<char>,
            crate::hayson::HaysonErrorKind,
        >(e),
        tag_error(j, "xstr"@) matches Some(e) ==> xstr_from_json(j) == Err::<
            crate::xstr::XstrView,
            crate::hayson::HaysonErrorKind,
        >(e),
        tag_error(j, "coord"@) matches Some(e) ==> coord_from_json(j) == Err::<
            crate::coord::Coord,
            crate::hayson::HaysonErrorKind,
        >(e),
        j is Object ==> (tag_error(j, "number"@) matches Some(e) ==> number_from_json(j) == Err::<
            NumberView,
            crate::hayson::HaysonErrorKind,
        >(e)),
        !(j is Object) ==> tag_error(j, kind_key()) == Some(
            crate::hayson::HaysonErrorKind::MissingTag,
        ),
{
}

/// A ref needs `@` and at least one id character, and `/`, `,` and `|` are
/// never id characters.
pub proof fn lemma_ref_rejections(s: Seq<char>, i: int)
    ensures
        !ref_grammar(Seq::<char>::empty()),
        !ref_grammar(seq!['@']),
        1 <= i < s.len() && (s[i] == '/' || s[i] == ',' || s[i] == '|') ==> !ref_grammar(s),
{
}

/// A symbol has at most one `:`.
pub proof fn lemma_symbol_at_most_one_colon(s: Seq<char>, i: int, k: int)
    requires
        1 <= i < k < s.len(),
        s[i] == ':',
        s[k] == ':',
    ensures
        !symbol_grammar(s),
{
    let colon = seq![':'];
    let rest = s.subrange(1, s.len() as int);
    assert(rest.subrange(i - 1, i) =~= colon);
    assert(occurs_at(rest, colon, i - 1));
    lemma_first_occurrence_from_bounds(rest, colon, 0);
    let f = first_occurrence(rest, colon)->0;
    assert(f <= i - 1);
    let second = rest.subrange(f + 1, rest.len() as int);
    let at = if f < i - 1 {
        i - 1 - (f + 1)
    } else {
        k - 1 - (f + 1)
    };
    assert(second.subrange(at, at + 1) =~= colon);
    assert(occurs_at(second, colon, at));
    lemma_first_occurrence_from_bounds(second, colon, 0);
}

proof fn lemma_keys_distinct()
    ensures
        kind_key() != "val"@,
        kind_key() != "type"@,
        "type"@ != "val"@,
        kind_key() != "lat"@,
        kind_key() != "lng"@,
        "lat"@ != "lng"@,
{
    reveal_strlit("_kind");
    reveal_strlit("val");
    reveal_strlit("type");
    reveal_strlit("lat");
    reveal_strlit("lng");
    assert(kind_key().len() == 5);
    assert("type"@.len() == 4);
    assert("val"@.len() == 3);
    assert("lat"@.len() == 3);
    assert("lng"@[1] != "lat"@[1]);
}

/// Decoding the encoding of a ref gives the same ref back.
pub proof fn lemma_ref_round_trip(r: Seq<char>, j: Json)
    requires
        ref_grammar(r),
        is_flat_object(j, ref_fields(r)),
    ensures
        ref_from_json(j) == Ok::<Seq<char>, HaysonErrorKind>(r),
{
    lemma_keys_distinct();
    let entries = j->Object_0@;
    lemma_lookup_at(entries, kind_key(), 0);
    lemma_lookup_at(entries, "val"@, 1);
    assert(seq!['@'] + r.subrange(1, r.len() as int) =~= r);
}

/// Decoding the encoding of a symbol gives the same symbol back.
pub proof fn lemma_symbol_round_trip(s: Seq<char>, j: Json)
    requires
        symbol_grammar(s),
        is_flat_object(j, symbol_fields(s)),
    ensures
        symbol_from_json(j) == Ok::<Seq<char>, HaysonErrorKind>(s),
{
    lemma_keys_distinct();
    let entries = j->Object_0@;
    lemma_lookup_at(entries, kind_key(), 0);
    lemma_lookup_at(entries, "val"@, 1);
    assert(seq!['^'] + s.subrange(1, s.len() as int) =~= s);
}

/// Decoding the encoding of a uri gives the same uri back.
pub proof fn lemma_uri_round_trip(u: Seq<char>, j: Json)
    requires
        is_flat_object(j, uri_fields(u)),
    ensures
        uri_from_json(j) == Ok::<Seq<char>, HaysonErrorKind>(u),
{
    lemma_keys_distinct();
    let entries = j->Object_0@;
    lemma_lookup_at(entries, kind_key(), 0);
    lemma_lookup_at(entries, "val"@, 1);
}

/// Decoding the encoding of an xstr gives the same xstr back.
pub proof fn lemma_xstr_round_trip(x: XstrView, j: Json)
    requires
        is_flat_object(j, xstr_fields(x)),
    ensures
        xstr_from_json(j) == Ok::<XstrView, HaysonErrorKind>(x),
{
    lemma_keys_distinct();
    let entries = j->Object_0@;
    lemma_lookup_at(entries, kind_key(), 0);
    lemma_lookup_at(entries, "type"@, 1);
    lemma_lookup_at(entries, "val"@, 2);
}

/// Decoding the encoding of a coord with a finite latitude and longitude
/// gives the same coord back.
pub proof fn lemma_coord_round_trip(c: Coord, j: Json)
    requires
        is_finite(c.lat),
        is_finite(c.lng),
        is_flat_object(j, coord_fields(c)),
    ensures
        coord_from_json(j) == Ok::<Coord, HaysonErrorKind>(c),
{
    lemma_keys_distinct();
    let entries = j->Object_0@;
    lemma_lookup_at(entries, kind_key(), 0);
    lemma_lookup_at(entries, "lat"@, 1);
    lemma_lookup_at(entries, "lng"@, 2);
}

/// The tag alone decodes: a marker, a remove marker and an NA come back from
/// their encodings.
pub proof fn lemma_tag_round_trip(tag: Seq<char>, j: Json)
    requires
        is_flat_object(j, tag_fields(tag)),
    ensures
        tag_error(j, tag) is None,
{
    lemma_lookup_at(j->Object_0@, kind_key(), 0);
}

} // verus!
