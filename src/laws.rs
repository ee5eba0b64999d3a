//! Properties of the service that hold for every repository state and request.
use vstd::prelude::*;
use crate::catch::{Catch, catch_json, catches_json};
use crate::repository::{ids_unique, has_id, lookup, lemma_lookup_at};
use crate::service::{
    Route, route_of, served, list_path, detail_prefix, id_segment, is_detail_path,
    invalid_id_body, STATUS_OK, STATUS_BAD_REQUEST, STATUS_NOT_FOUND,
};
use crate::text::{decimal, digit_char, is_digit, digit_value, all_digits, digits_value, parse_id};

verus! {

/// A path made of the detail prefix and one segment is routed by that segment.
proof fn lemma_detail_route(segment: Seq<char>)
    requires
        !segment.contains('/'),
    ensures
        route_of("GET"@, detail_prefix() + segment) == match parse_id(segment) {
            Some(id) => Route::CatchDetail(id),
            None => Route::InvalidId,
        },
{
    reveal_strlit("/catch/");
    reveal_strlit("/catches");
    let path = detail_prefix() + segment;
    assert(path[6] == '/');
    assert(list_path()[6] == 'e');
    assert(path != list_path());
    assert(path.subrange(0, 7) =~= detail_prefix());
    assert(id_segment(path) =~= segment);
    assert(is_detail_path(path));
}

/// The decimal text of a number is a valid identifier naming that number.
pub proof fn lemma_decimal_parses(n: u64)
    ensures
        parse_id(decimal(n as nat)) == Some(n),
        !decimal(n as nat).contains('/'),
{
    lemma_decimal_digits(n as nat);
    assert(is_digit(decimal(n as nat)[0]));
    if decimal(n as nat).contains('/') {
        let k = choose|k: int| 0 <= k < decimal(n as nat).len() && decimal(n as nat)[k] == '/';
        assert(is_digit(decimal(n as nat)[k]));
    }
}

proof fn lemma_decimal_digits(n: nat)
    ensures
        decimal(n).len() > 0,
        all_digits(decimal(n)),
        digits_value(decimal(n)) == n,
    decreases n,
{
    let d = digit_char(n % 10);
    assert(is_digit(d) && digit_value(d) == n % 10);
    if n >= 10 {
        lemma_decimal_digits(n / 10);
        let s = decimal(n);
        assert(s.drop_last() =~= decimal(n / 10));
        assert(s.last() == d);
        assert(digits_value(s) == digits_value(decimal(n / 10)) * 10 + digit_value(d));
        assert((n / 10) * 10 + n % 10 == n) by (nonlinear_arith);
        assert(all_digits(s)) by {
            assert forall|i: int| 0 <= i < s.len() implies is_digit(#[trigger] s[i]) by {
                if i < s.len() - 1 {
                    assert(s[i] == decimal(n / 10)[i]);
                }
            }
        }
    } else {
        assert(decimal(n).drop_last() =~= Seq::<char>::empty());
        assert(digits_value(decimal(n)) == digits_value(Seq::<char>::empty()) * 10 + digit_value(d));
    }
}

/// A well-formed id that no record carries is answered with 404, never 200.
pub proof fn lemma_absent_id_not_found(cs: Seq<Catch>, segment: Seq<char>)
    requires
        parse_id(segment) is Some,
        !has_id(cs, parse_id(segment)->0),
    ensures
        served(cs, "GET"@, detail_prefix() + segment).0 == STATUS_NOT_FOUND,
{
    assert(!segment.contains('/')) by {
        if segment.contains('/') {
            let k = choose|k: int| 0 <= k < segment.len() && segment[k] == '/';
            assert(is_digit(segment[k]));
        }
    }
    lemma_detail_route(segment);
}

/// An id segment that is empty or holds anything but decimal digits (a sign,
/// a letter) is answered with 400 and never reaches the repository.
pub proof fn lemma_malformed_id_rejected(cs: Seq<Catch>, segment: Seq<char>)
    requires
        segment.len() == 0 || exists|i: int| 0 <= i < segment.len() && !is_digit(#[trigger] segment[i]),
        !segment.contains('/'),
    ensures
        served(cs, "GET"@, detail_prefix() + segment) == (STATUS_BAD_REQUEST, invalid_id_body()),
{
    lemma_detail_route(segment);
}

/// Listing an empty repository succeeds with the empty JSON array.
pub proof fn lemma_empty_listing()
    ensures
        served(Seq::empty(), "GET"@, list_path()) == (STATUS_OK, seq!['[', ']']),
{
    assert(catches_json(Seq::<Catch>::empty()) =~= seq!['[', ']']);
}

/// Every listed catch, requested again by its id, is found unchanged and
/// served as the same JSON object.
pub proof fn lemma_listed_catch_found_again(cs: Seq<Catch>, i: int)
    requires
        ids_unique(cs),
        0 <= i < cs.len(),
    ensures
        lookup(cs, cs[i].id) == Some(cs[i]),
        served(cs, "GET"@, detail_prefix() + decimal(cs[i].id as nat)) == (STATUS_OK, catch_json(cs[i])),
{
    lemma_lookup_at(cs, i);
    lemma_decimal_parses(cs[i].id);
    lemma_detail_route(decimal(cs[i].id as nat));
}

} // verus!
