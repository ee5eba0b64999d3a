//! The catch record and its JSON wire format.
use vstd::prelude::*;
use vstd::string::*;
use crate::text::{decimal, digit_char, json_string, push_digit, write_decimal, write_json_string};

verus! {

/// A non-negative quantity with three decimal places, held in thousandths of
/// its unit (`5250` is 5.25).
#[derive(Clone, Copy, Debug, PartialEq, Eq, Structural)]
pub struct Measure {
    pub thousandths: u64,
}

impl Measure {
    pub fn from_thousandths(thousandths: u64) -> (r: Measure)
        ensures
            r.thousandths == thousandths,
    {
        Measure { thousandths }
    }
}

/// A single reported fishing catch. `weight` and `length` are in kilograms
/// and centimetres respectively.
#[derive(Debug, PartialEq, Eq)]
pub struct Catch {
    pub id: u64,
    pub species: String,
    pub weight: Measure,
    pub length: Measure,
    pub photo_url: String,
}

impl Clone for Catch {
    fn clone(&self) -> (r: Catch)
        ensures
            r == *self,
    {
        Catch {
            id: self.id,
            species: self.species.clone(),
            weight: self.weight,
            length: self.length,
            photo_url: self.photo_url.clone(),
        }
    }
}

impl Catch {
    pub fn new(id: u64, species: String, weight: Measure, length: Measure, photo_url: String) -> (r: Catch)
        ensures
            r == (Catch { id, species, weight, length, photo_url }),
    {
        Catch { id, species, weight, length, photo_url }
    }
}

/// The digits after the point of a fraction `f < 1000` thousandths, with
/// trailing zeros dropped but at least one digit kept (`250` is "25", `0` is "0").
pub open spec fn fraction_text(f: nat) -> Seq<char> {
    if f % 100 == 0 {
        seq![digit_char(f / 100)]
    } else if f % 10 == 0 {
        seq![digit_char(f / 100), digit_char((f / 10) % 10)]
    } else {
        seq![digit_char(f / 100), digit_char((f / 10) % 10), digit_char(f % 10)]
    }
}

/// A measure as a JSON number: whole part, a point, then the fraction
/// (`5000` is "5.0", `5250` is "5.25").
pub open spec fn measure_json(m: Measure) -> Seq<char> {
    decimal(m.thousandths as nat / 1000) + seq!['.'] + fraction_text(m.thousandths as nat % 1000)
}

/// A catch as a JSON object, its fields in the order
/// `id, species, weight, length, photo_url`.
pub open spec fn catch_json(c: Catch) -> Seq<char> {
    "{\"id\":"@ + decimal(c.id as nat) + ",\"species\":"@ + json_string(c.species@)
        + ",\"weight\":"@ + measure_json(c.weight) + ",\"length\":"@ + measure_json(c.length)
        + ",\"photo_url\":"@ + json_string(c.photo_url@) + seq!['}']
}

/// The objects of a sequence of catches, separated by commas.
pub open spec fn catches_items_json(cs: Seq<Catch>) -> Seq<char>
    decreases cs.len(),
{
    if cs.len() == 0 {
        Seq::empty()
    } else if cs.len() == 1 {
        catch_json(cs[0])
    } else {
        catches_items_json(cs.drop_last()) + seq![','] + catch_json(cs.last())
    }
}

/// A sequence of catches as a JSON array, in the given order.
pub open spec fn catches_json(cs: Seq<Catch>) -> Seq<char> {
    seq!['['] + catches_items_json(cs) + seq![']']
}

/// Appends a measure as a JSON number.
pub fn write_measure(out: &mut String, m: Measure)
    ensures
        final(out)@ == old(out)@ + measure_json(m),
{
    let whole = m.thousandths / 1000;
    let f = m.thousandths % 1000;
    write_decimal(out, whole);
    out.push('.');
    push_digit(out, (f / 100) as u32);
    if f % 100 != 0 {
        push_digit(out, ((f / 10) % 10) as u32);
        if f % 10 != 0 {
            push_digit(out, (f % 10) as u32);
        }
    }
    assert(out@ =~= old(out)@ + measure_json(m));
}

/// Appends a catch as a JSON object.
pub fn write_catch(out: &mut String, c: &Catch)
    ensures
        final(out)@ == old(out)@ + catch_json(*c),
{
    out.append("{\"id\":");
    write_decimal(out, c.id);
    out.append(",\"species\":");
    write_json_string(out, c.species.as_str());
    out.append(",\"weight\":");
    write_measure(out, c.weight);
    out.append(",\"length\":");
    write_measure(out, c.length);
    out.append(",\"photo_url\":");
    write_json_string(out, c.photo_url.as_str());
    out.push('}');
    assert(out@ =~= old(out)@ + catch_json(*c));
}

/// The JSON object of one catch.
pub fn catch_to_json(c: &Catch) -> (r: String)
    ensures
        r@ == catch_json(*c),
{
    let mut out = String::new();
    write_catch(&mut out, c);
    assert(out@ =~= catch_json(*c));
    out
}

/// The JSON array of a list of catches, in the order given.
pub fn catches_to_json(cs: &Vec<Catch>) -> (r: String)
    ensures
        r@ == catches_json(cs@),
{
    let mut out = String::new();
    out.push('[');
    let mut i: usize = 0;
    while i < cs.len()
        invariant
            i <= cs@.len(),
            out@ == seq!['['] + catches_items_json(cs@.subrange(0, i as int)),
        decreases cs@.len() - i,
    {
        let ghost before = cs@.subrange(0, i as int);
        let ghost after = cs@.subrange(0, i + 1);
        assert(after.drop_last() =~= before);
        if i > 0 {
            out.push(',');
        }
        write_catch(&mut out, &cs[i]);
        assert(out@ =~= seq!['['] + catches_items_json(after));
        i = i + 1;
    }
    assert(cs@.subrange(0, cs@.len() as int) =~= cs@);
    out.push(']');
    assert(out@ =~= catches_json(cs@));
    out
}

} // verus!
