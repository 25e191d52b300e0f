//! String building blocks shared by the translator, the allocator and the
//! serial framing: pushing single characters, printing decimal numbers, and
//! substituting the `{{filename}}` placeholder.
use vstd::prelude::*;

verus! {

/// Relies on std's `String::push`: appends exactly one character.
#[verifier::external_body]
pub fn string_push(s: &mut String, c: char)
    ensures
        final(s)@ == old(s)@.push(c),
{
    s.push(c)
}

/// The ASCII digit for a value below ten.
pub open spec fn digit_char(d: nat) -> char
    recommends
        d < 10,
{
    ((d + 48) as u8) as char
}

/// Decimal notation of a natural number, most significant digit first.
pub open spec fn spec_decimal(n: nat) -> Seq<char>
    decreases n,
{
    if n < 10 {
        seq![digit_char(n)]
    } else {
        spec_decimal(n / 10).push(digit_char(n % 10))
    }
}

/// Prints `n` in decimal.
pub fn u32_to_string(n: u32) -> (r: String)
    ensures
        r@ == spec_decimal(n as nat),
    decreases n,
{
    if n < 10 {
        let mut r = String::new();
        string_push(&mut r, ((n as u8) + 48) as char);
        assert(r@ =~= spec_decimal(n as nat));
        r
    } else {
        let mut r = u32_to_string(n / 10);
        string_push(&mut r, (((n % 10) as u8) + 48) as char);
        r
    }
}

/// The template placeholder replaced by the request's entrypoint filename.
pub open spec fn spec_placeholder() -> Seq<char> {
    "{{filename}}"@
}

/// `s` with every occurrence of `{{filename}}` replaced by `repl`, scanning
/// left to right without overlap, exactly as `str::replace` does.
pub open spec fn spec_replace_filename(s: Seq<char>, repl: Seq<char>) -> Seq<char>
    decreases s.len(),
{
    if s.len() >= 12 && s.subrange(0, 12) == spec_placeholder() {
        repl + spec_replace_filename(s.skip(12), repl)
    } else if s.len() == 0 {
        s
    } else {
        seq![s[0]] + spec_replace_filename(s.skip(1), repl)
    }
}

/// True exactly when the placeholder occurs in `s` at position `i`.
fn placeholder_at(s: &str, n: usize, i: usize) -> (b: bool)
    requires
        n == s@.len(),
        i <= n,
    ensures
        b == (i + 12 <= s@.len() && s@.subrange(i as int, i + 12) == spec_placeholder()),
{
    proof {
        reveal_strlit("{{filename}}");
    }
    proof {
        assert(spec_placeholder().len() == 12);
    }
    if n - i < 12 {
        return false;
    }
    let pat = "{{filename}}";
    let mut k: usize = 0;
    while k < 12
        invariant
            n == s@.len(),
            i + 12 <= n,
            k <= 12,
            pat@ == spec_placeholder(),
            spec_placeholder().len() == 12,
            forall|j: int| 0 <= j < k ==> s@[i + j] == spec_placeholder()[j],
        decreases 12 - k,
    {
        if s.get_char(i + k) != pat.get_char(k) {
            assert(s@.subrange(i as int, i + 12)[k as int] != spec_placeholder()[k as int]);
            return false;
        }
        k += 1;
    }
    proof {
        assert(s@.subrange(i as int, i + 12) =~= spec_placeholder());
    }
    true
}

/// Substitutes the entrypoint filename for every `{{filename}}` placeholder.
pub fn replace_filename(s: &str, repl: &str) -> (r: String)
    ensures
        r@ == spec_replace_filename(s@, repl@),
{
    let n = s.unicode_len();
    let mut out = String::new();
    let mut i: usize = 0;
    proof {
        assert(s@.skip(0) == s@);
    }
    while i < n
        invariant
            n == s@.len(),
            i <= n,
            spec_replace_filename(s@, repl@) == out@ + spec_replace_filename(
                s@.skip(i as int),
                repl@,
            ),
        decreases n - i,
    {
        let ghost rest = s@.skip(i as int);
        if placeholder_at(s, n, i) {
            proof {
                assert(rest.subrange(0, 12) =~= s@.subrange(i as int, i + 12));
                assert(rest.skip(12) =~= s@.skip(i + 12));
            }
            out.append(repl);
            i += 12;
        } else {
            proof {
                assert(rest.len() > 0);
                if rest.len() >= 12 {
                    assert(rest.subrange(0, 12) =~= s@.subrange(i as int, i + 12));
                }
                assert(rest[0] == s@[i as int]);
                assert(rest.skip(1) =~= s@.skip(i + 1));
            }
            string_push(&mut out, s.get_char(i));
            i += 1;
        }
    }
    proof {
        assert(s@.skip(n as int) =~= Seq::<char>::empty());
        assert(spec_replace_filename(Seq::<char>::empty(), repl@) =~= Seq::<char>::empty());
    }
    out
}

} // verus!
