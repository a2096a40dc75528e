//! Random stage arguments for the randomized end-to-end driver of the `$rustSdkE2e` stage.
//!
//! The driver draws aggregation pipelines from a seeded `StdRng` of the `rand` crate. The shape
//! of each pipeline (which BSON types, how deep, how many keys) is decided here, from the
//! generator's draws; the driver turns a [`FuzzValue`] into a BSON value, drawing the current
//! time and object ids, and sends the pipeline to the server.

use vstd::prelude::*;

use rand::rngs::StdRng;
use rand::Rng;

use crate::text::concat2;

verus! {

#[verifier::external_type_specification]
#[verifier::external_body]
pub struct ExStdRng(rand::rngs::StdRng);

/// A BSON leaf value of a random pipeline.
#[derive(Debug, Clone, PartialEq)]
pub enum FuzzLeaf {
    Null,
    Boolean(bool),
    Int32(i32),
    Int64(i64),
    /// A double in `[0, 1)`, given by the 64 random bits it is drawn from (the top 53 bits
    /// scaled by 2^-53).
    Double(u64),
    String(String),
    /// A regular expression with options `"i"`.
    RegularExpression { pattern: String, options: String },
    /// The current time, read when the value is turned into BSON.
    DateTimeNow,
    Timestamp { time: u32, increment: u32 },
    /// A fresh object id, made when the value is turned into BSON.
    ObjectIdNew,
}

/// A BSON value of a random pipeline: a leaf, an embedded document (fields in order) or an array.
#[derive(Debug)]
pub enum FuzzValue {
    Leaf(FuzzLeaf),
    Document(Vec<(String, FuzzValue)>),
    Array(Vec<FuzzValue>),
}

/// Name of the stage the driver targets.
pub const FUZZ_STAGE_NAME: &'static str = "$rustSdkE2e";

/// `Rng::gen_range(lo..hi)` on `u8`: some value in `[lo, hi)`. The range must not be empty
/// (`gen_range` panics on an empty range).
#[verifier::external_body]
fn rng_range_u8(rng: &mut StdRng, lo: u8, hi: u8) -> (r: u8)
    requires
        lo < hi,
    ensures
        lo <= r < hi,
{
    rng.gen_range(lo..hi)
}

/// `Rng::gen_range(0..=max)` on `usize`: some value in `[0, max]`.
#[verifier::external_body]
fn rng_upto_usize(rng: &mut StdRng, max: usize) -> (r: usize)
    ensures
        r <= max,
{
    rng.gen_range(0..=max)
}

/// `Rng::gen::<bool>()`: a random boolean; nothing is stated of which.
#[verifier::external_body]
fn rng_gen_bool(rng: &mut StdRng) -> (r: bool) {
    rng.gen()
}

/// `Rng::gen::<i32>()`: a random 32-bit integer; nothing is stated of which.
#[verifier::external_body]
fn rng_gen_i32(rng: &mut StdRng) -> (r: i32) {
    rng.gen()
}

/// `Rng::gen::<i64>()`: a random 64-bit integer; nothing is stated of which.
#[verifier::external_body]
fn rng_gen_i64(rng: &mut StdRng) -> (r: i64) {
    rng.gen()
}

/// `Rng::gen::<u32>()`: a random unsigned 32-bit integer; nothing is stated of which.
#[verifier::external_body]
fn rng_gen_u32(rng: &mut StdRng) -> (r: u32) {
    rng.gen()
}

/// `Rng::gen::<u64>()`: 64 random bits; nothing is stated of which.
#[verifier::external_body]
fn rng_gen_u64(rng: &mut StdRng) -> (r: u64) {
    rng.gen()
}

/// `String::push`: appends one character.
#[verifier::external_body]
fn string_push(s: &mut String, c: char)
    ensures
        final(s)@ == old(s)@.push(c),
{
    s.push(c);
}

/// Every character is a lowercase ASCII letter.
pub open spec fn lowercase_ascii(s: Seq<char>) -> bool {
    forall|i: int| 0 <= i < s.len() ==> 'a' <= #[trigger] s[i] <= 'z'
}

/// The characters that drawn bytes stand for, in order.
pub open spec fn spec_ascii(draws: Seq<u8>) -> Seq<char> {
    draws.map_values(|b: u8| b as char)
}

/// Bytes drawn for letters: each in `[97, 123)`, that is `'a'..='z'`.
pub open spec fn letter_draws(draws: Seq<u8>) -> bool {
    forall|i: int| 0 <= i < draws.len() ==> 97 <= #[trigger] draws[i] < 123
}

/// The string of the drawn bytes, each taken as a character, in order.
pub fn ascii_from_draws(draws: &Vec<u8>) -> (s: String)
    ensures
        s@ == spec_ascii(draws@),
{
    let mut s = String::new();
    let mut i: usize = 0;
    while i < draws.len()
        invariant
            i <= draws@.len(),
            s@ == spec_ascii(draws@.take(i as int)),
        decreases draws@.len() - i,
    {
        let c = draws[i] as char;
        string_push(&mut s, c);
        proof {
            assert(draws@.take(i + 1) =~= draws@.take(i as int).push(draws@[i as int]));
            assert(spec_ascii(draws@.take(i + 1)) =~= spec_ascii(draws@.take(i as int)).push(c));
        }
        i = i + 1;
    }
    proof {
        assert(draws@.take(i as int) =~= draws@);
    }
    s
}

/// Letters drawn in `[97, 123)` make a lowercase string.
proof fn lemma_letters_lowercase(draws: Seq<u8>)
    requires
        letter_draws(draws),
    ensures
        lowercase_ascii(spec_ascii(draws)),
{
    assert forall|i: int| 0 <= i < spec_ascii(draws).len() implies 'a' <= #[trigger] spec_ascii(draws)[i] <= 'z' by {
        let b = draws[i];
        assert(97 <= b < 123);
        let c = b as char;
        assert('a' <= c <= 'z');
    }
}

/// A random string of lowercase ASCII letters: a length drawn in `[0, max(max_len, 1)]`, then
/// that many letters, each drawn in `[97, 123)`.
pub fn random_ascii(rng: &mut StdRng, max_len: usize) -> (s: String)
    ensures
        s@.len() <= (if max_len == 0 { 1 } else { max_len }),
        lowercase_ascii(s@),
        exists|draws: Seq<u8>|
            draws.len() <= (if max_len == 0 { 1 } else { max_len }) && letter_draws(draws) && s@ == #[trigger] spec_ascii(
                draws,
            ),
{
    let bound: usize = if max_len == 0 { 1 } else { max_len };
    let len = rng_upto_usize(rng, bound);
    let mut draws: Vec<u8> = Vec::new();
    let mut i: usize = 0;
    while i < len
        invariant
            i <= len,
            len <= bound,
            draws@.len() == i,
            letter_draws(draws@),
        decreases len - i,
    {
        let b = rng_range_u8(rng, 97, 123);
        draws.push(b);
        i = i + 1;
    }
    let s = ascii_from_draws(&draws);
    proof {
        lemma_letters_lowercase(draws@);
    }
    s
}

/// The leaves the generator draws: strings of at most 48 letters, regular expressions of at
/// most 8 letters with options `"i"`, and never an object id.
pub open spec fn leaf_ok(l: FuzzLeaf) -> bool {
    match l {
        FuzzLeaf::String(s) => s@.len() <= 48 && lowercase_ascii(s@),
        FuzzLeaf::RegularExpression { pattern, options } => pattern@.len() <= 8 && lowercase_ascii(pattern@)
            && options@ == seq!['i'],
        FuzzLeaf::ObjectIdNew => false,
        _ => true,
    }
}

/// The leaf that a draw of kind `pick` gives with the values drawn for it: `flag` for a
/// boolean, `small` and `large` for the integers, `bits` for a double, `text` for a string or a
/// regular expression pattern, `time` and `increment` for a timestamp.
pub open spec fn leaf_of_draws(
    l: FuzzLeaf,
    pick: u8,
    flag: bool,
    small: i32,
    large: i64,
    bits: u64,
    text: String,
    time: u32,
    increment: u32,
) -> bool {
    match pick {
        0 => l == FuzzLeaf::Null,
        1 => l == FuzzLeaf::Boolean(flag),
        2 => l == FuzzLeaf::Int32(small),
        3 => l == FuzzLeaf::Int64(large),
        4 => l == FuzzLeaf::Double(bits),
        5 => l == FuzzLeaf::String(text),
        6 => l matches FuzzLeaf::RegularExpression { pattern, options } && pattern == text && options@
            == seq!['i'],
        7 => l == FuzzLeaf::DateTimeNow,
        8 => l == (FuzzLeaf::Timestamp { time, increment }),
        _ => l == FuzzLeaf::ObjectIdNew,
    }
}

/// The leaf of kind `pick` built from the drawn values (see [`leaf_of_draws`]).
pub fn leaf_from_draws(
    pick: u8,
    flag: bool,
    small: i32,
    large: i64,
    bits: u64,
    text: String,
    time: u32,
    increment: u32,
) -> (l: FuzzLeaf)
    ensures
        leaf_of_draws(l, pick, flag, small, large, bits, text, time, increment),
{
    match pick {
        0 => FuzzLeaf::Null,
        1 => FuzzLeaf::Boolean(flag),
        2 => FuzzLeaf::Int32(small),
        3 => FuzzLeaf::Int64(large),
        4 => FuzzLeaf::Double(bits),
        5 => FuzzLeaf::String(text),
        6 => {
            let options = String::from_str("i");
            proof {
                reveal_strlit("i");
            }
            assert(options@ =~= seq!['i']);
            FuzzLeaf::RegularExpression { pattern: text, options }
        },
        7 => FuzzLeaf::DateTimeNow,
        8 => FuzzLeaf::Timestamp { time, increment },
        _ => FuzzLeaf::ObjectIdNew,
    }
}

/// A random leaf: its kind drawn in `[0, 9)` (so the object-id arm is never taken), then the
/// values that kind needs: a boolean, a 32- or 64-bit integer, 64 bits for a double, a string
/// of at most 48 letters, a pattern of at most 8 letters, or the two halves of a timestamp.
pub fn random_bson_leaf(rng: &mut StdRng) -> (l: FuzzLeaf)
    ensures
        leaf_ok(l),
        exists|pick: u8, flag: bool, small: i32, large: i64, bits: u64, text: String, time: u32, increment: u32|
            pick < 9 && (pick == 5 ==> text@.len() <= 48 && lowercase_ascii(text@)) && (pick == 6 ==> text@.len()
                <= 8 && lowercase_ascii(text@)) && #[trigger] leaf_of_draws(
                l,
                pick,
                flag,
                small,
                large,
                bits,
                text,
                time,
                increment,
            ),
{
    let pick = rng_range_u8(rng, 0, 9);
    let mut flag = false;
    let mut small: i32 = 0;
    let mut large: i64 = 0;
    let mut bits: u64 = 0;
    let mut text = String::new();
    let mut time: u32 = 0;
    let mut increment: u32 = 0;
    if pick == 1 {
        flag = rng_gen_bool(rng);
    } else if pick == 2 {
        small = rng_gen_i32(rng);
    } else if pick == 3 {
        large = rng_gen_i64(rng);
    } else if pick == 4 {
        bits = rng_gen_u64(rng);
    } else if pick == 5 {
        text = random_ascii(rng, 48);
    } else if pick == 6 {
        text = random_ascii(rng, 8);
    } else if pick == 8 {
        time = rng_gen_u32(rng);
        increment = rng_gen_u32(rng);
    }
    let ghost text_model = text;
    let l = leaf_from_draws(pick, flag, small, large, bits, text, time, increment);
    assert(leaf_of_draws(l, pick, flag, small, large, bits, text_model, time, increment));
    l
}

/// The key of the `i`-th field of a generated document: `k` and the decimal digit of `i`.
pub open spec fn field_key(i: int) -> Seq<char> {
    seq!['k', ((48 + i) as u32) as char]
}

/// The shape of a generated value at most `depth` levels deep: documents with at most ten
/// fields keyed `k0`, `k1`, ..., arrays of at most eight elements, and leaves as [`leaf_ok`].
pub open spec fn well_shaped(v: FuzzValue, depth: nat) -> bool
    decreases depth,
{
    match v {
        FuzzValue::Leaf(l) => leaf_ok(l),
        FuzzValue::Document(fields) => depth > 0 && fields@.len() <= 10 && forall|i: int|
            0 <= i < fields@.len() ==> (#[trigger] fields@[i]).0@ == field_key(i) && well_shaped(
                fields@[i].1,
                (depth - 1) as nat,
            ),
        FuzzValue::Array(items) => depth > 0 && items@.len() <= 8 && forall|i: int|
            0 <= i < items@.len() ==> well_shaped(#[trigger] items@[i], (depth - 1) as nat),
    }
}

/// The key `k<i>` for a field index below ten.
fn field_key_exec(i: usize) -> (k: String)
    requires
        i < 10,
    ensures
        k@ == field_key(i as int),
{
    let d: &str = match i {
        0 => "0",
        1 => "1",
        2 => "2",
        3 => "3",
        4 => "4",
        5 => "5",
        6 => "6",
        7 => "7",
        8 => "8",
        _ => "9",
    };
    proof {
        reveal_strlit("k");
        reveal_strlit("0");
        reveal_strlit("1");
        reveal_strlit("2");
        reveal_strlit("3");
        reveal_strlit("4");
        reveal_strlit("5");
        reveal_strlit("6");
        reveal_strlit("7");
        reveal_strlit("8");
        reveal_strlit("9");
    }
    let k = concat2("k", d);
    assert(k@ =~= field_key(i as int));
    k
}

/// The value a draw of kind `pick` gives at `depth`: a leaf at depth zero or for `pick` nine and
/// up, a document of the children keyed `k0`, `k1`, ... for `pick` up to five, an array of the
/// children otherwise.
pub open spec fn value_of_draws(v: FuzzValue, depth: nat, pick: u8, children: Seq<FuzzValue>, leaf: FuzzLeaf) -> bool {
    if depth == 0 || pick >= 9 {
        v == FuzzValue::Leaf(leaf)
    } else if pick <= 5 {
        v matches FuzzValue::Document(fields) && fields@.len() == children.len() && forall|i: int|
            0 <= i < children.len() ==> (#[trigger] fields@[i]).0@ == field_key(i) && fields@[i].1 == children[i]
    } else {
        v matches FuzzValue::Array(items) && items@ == children
    }
}

/// The value of kind `pick` at `depth` built from the drawn children or leaf (see
/// [`value_of_draws`]).
pub fn value_from_draws(depth: u8, pick: u8, children: Vec<FuzzValue>, leaf: FuzzLeaf) -> (v: FuzzValue)
    requires
        children@.len() <= 10,
    ensures
        value_of_draws(v, depth as nat, pick, children@, leaf),
{
    if depth == 0 || pick >= 9 {
        return FuzzValue::Leaf(leaf);
    }
    if pick > 5 {
        return FuzzValue::Array(children);
    }
    let ghost all = children@;
    let mut rest = children;
    let n = rest.len();
    let mut fields: Vec<(String, FuzzValue)> = Vec::new();
    let mut i: usize = 0;
    assert(all.skip(0) =~= all);
    while i < n
        invariant
            n == all.len(),
            n <= 10,
            i <= n,
            rest@ == all.skip(i as int),
            fields@.len() == i,
            forall|j: int| 0 <= j < i ==> (#[trigger] fields@[j]).0@ == field_key(j) && fields@[j].1 == all[j],
        decreases n - i,
    {
        let child = rest.remove(0);
        assert(rest@ =~= all.skip(i + 1));
        let key = field_key_exec(i);
        fields.push((key, child));
        i = i + 1;
    }
    FuzzValue::Document(fields)
}

/// A random value at most `depth` levels deep. At depth zero it is a random leaf. Above, its
/// kind is drawn in `[0, 10)`: up to five gives a document of a number of fields drawn in
/// `[0, 10]`, six to eight an array of a number of elements drawn in `[0, 8]`, each child drawn
/// one level less deep; nine gives a random leaf.
pub fn random_bson_value(rng: &mut StdRng, depth: u8) -> (v: FuzzValue)
    ensures
        well_shaped(v, depth as nat),
        depth == 0 ==> v is Leaf,
        exists|pick: u8, children: Seq<FuzzValue>, leaf: FuzzLeaf|
            pick < 10 && leaf_ok(leaf) && (depth > 0 && pick <= 5 ==> children.len() <= 10) && (depth > 0 && 6
                <= pick <= 8 ==> children.len() <= 8) && (forall|i: int|
                0 <= i < children.len() ==> well_shaped(#[trigger] children[i], (depth - 1) as nat))
                && #[trigger] value_of_draws(v, depth as nat, pick, children, leaf),
    decreases depth,
{
    if depth == 0 {
        let leaf = random_bson_leaf(rng);
        let v = value_from_draws(0, 0, Vec::new(), leaf);
        assert(value_of_draws(v, 0, 0, Seq::<FuzzValue>::empty(), leaf));
        return v;
    }
    let pick = rng_range_u8(rng, 0, 10);
    if pick <= 8 {
        let n = if pick <= 5 {
            rng_upto_usize(rng, 10)
        } else {
            rng_upto_usize(rng, 8)
        };
        let mut children: Vec<FuzzValue> = Vec::new();
        let mut i: usize = 0;
        while i < n
            invariant
                n <= 10,
                pick > 5 ==> n <= 8,
                i <= n,
                depth > 0,
                children@.len() == i,
                forall|j: int| 0 <= j < i ==> well_shaped(#[trigger] children@[j], (depth - 1) as nat),
            decreases n - i,
        {
            let child = random_bson_value(rng, depth - 1);
            children.push(child);
            i = i + 1;
        }
        let ghost drawn = children@;
        let v = value_from_draws(depth, pick, children, FuzzLeaf::Null);
        assert(leaf_ok(FuzzLeaf::Null));
        assert(value_of_draws(v, depth as nat, pick, drawn, FuzzLeaf::Null));
        let ghost gv = v;
        proof {
            if pick <= 5 {
                if let FuzzValue::Document(fields) = gv {
                    assert forall|j: int| 0 <= j < fields@.len() implies (#[trigger] fields@[j]).0@ == field_key(j)
                        && well_shaped(fields@[j].1, (depth - 1) as nat) by {
                        assert(fields@[j].1 == drawn[j]);
                    }
                }
            }
        }
        v
    } else {
        let leaf = random_bson_leaf(rng);
        let v = value_from_draws(depth, pick, Vec::new(), leaf);
        assert(value_of_draws(v, depth as nat, pick, Seq::<FuzzValue>::empty(), leaf));
        v
    }
}

/// The fields `{ x: 1 }` that stand in when the drawn value is not a document.
pub open spec fn fallback_args(fields: Seq<(String, FuzzValue)>) -> bool {
    fields.len() == 1 && fields[0].0@ == seq!['x'] && fields[0].1 == FuzzValue::Leaf(FuzzLeaf::Int32(1))
}

/// The stage arguments a drawn value gives: its fields when it is a document, else `{ x: 1 }`.
pub open spec fn stage_args_of_draw(fields: Seq<(String, FuzzValue)>, v: FuzzValue) -> bool {
    match v {
        FuzzValue::Document(f) => fields == f@,
        _ => fallback_args(fields),
    }
}

/// The stage arguments of a drawn value (see [`stage_args_of_draw`]).
pub fn stage_args_from_draw(v: FuzzValue) -> (fields: Vec<(String, FuzzValue)>)
    ensures
        stage_args_of_draw(fields@, v),
{
    if let FuzzValue::Document(drawn) = v {
        return drawn;
    }
    let mut fallback: Vec<(String, FuzzValue)> = Vec::new();
    let x = String::from_str("x");
    proof {
        reveal_strlit("x");
    }
    fallback.push((x, FuzzValue::Leaf(FuzzLeaf::Int32(1))));
    assert(fallback@[0].0@ =~= seq!['x']);
    fallback
}

/// Random arguments of `$rustSdkE2e`: the fields of a value drawn three levels deep when it is
/// a document, else `{ x: 1 }`.
pub fn random_stage_args_rust_sdk_e2e(rng: &mut StdRng) -> (fields: Vec<(String, FuzzValue)>)
    ensures
        well_shaped(FuzzValue::Document(fields), 3) || fallback_args(fields@),
        exists|v: FuzzValue| well_shaped(v, 3) && #[trigger] stage_args_of_draw(fields@, v),
{
    let v = random_bson_value(rng, 3);
    let ghost drawn = v;
    let fields = stage_args_from_draw(v);
    assert(stage_args_of_draw(fields@, drawn));
    fields
}

/// The pipeline `[{ $rustSdkE2e: <arguments> }]` of the given arguments.
pub open spec fn pipeline_of_args(pipeline: Seq<FuzzValue>, args: Seq<(String, FuzzValue)>) -> bool {
    &&& pipeline.len() == 1
    &&& pipeline[0] matches FuzzValue::Document(stage) && stage@.len() == 1 && stage@[0].0@ == FUZZ_STAGE_NAME@
        && (stage@[0].1 matches FuzzValue::Document(a) && a@ == args)
}

/// The one-stage pipeline of the given arguments (see [`pipeline_of_args`]).
pub fn pipeline_from_args(args: Vec<(String, FuzzValue)>) -> (pipeline: Vec<FuzzValue>)
    ensures
        pipeline_of_args(pipeline@, args@),
{
    let name = String::from_str(FUZZ_STAGE_NAME);
    let mut stage: Vec<(String, FuzzValue)> = Vec::new();
    stage.push((name, FuzzValue::Document(args)));
    let mut pipeline: Vec<FuzzValue> = Vec::new();
    pipeline.push(FuzzValue::Document(stage));
    pipeline
}

/// A one-stage pipeline `[{ $rustSdkE2e: <random arguments> }]`.
pub fn pipeline_for_stage(rng: &mut StdRng) -> (pipeline: Vec<FuzzValue>)
    ensures
        exists|args: Vec<(String, FuzzValue)>|
            (well_shaped(FuzzValue::Document(args), 3) || fallback_args(args@)) && #[trigger] pipeline_of_args(
                pipeline@,
                args@,
            ),
{
    let args = random_stage_args_rust_sdk_e2e(rng);
    let ghost a = args;
    let p = pipeline_from_args(args);
    assert(pipeline_of_args(p@, a@));
    p
}

} // verus!
