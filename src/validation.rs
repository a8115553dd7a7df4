use vstd::prelude::*;
use vstd::string::StringExecFns;
use vstd::utf8::encode_utf8;
use crate::error::AppError;

verus! {

/// Largest number of instances a database cluster may run.
pub const MAX_INSTANCES: i32 = 10;

/// Longest resource name, in bytes.
pub const MAX_NAME_BYTES: usize = 253;

/// Longest database identifier, in bytes.
pub const MAX_DATABASE_NAME_BYTES: usize = 63;

/// Number of bytes of the UTF-8 encoding of `s`.
pub open spec fn utf8_len(s: Seq<char>) -> int {
    encode_utf8(s).len() as int
}

/// `r` is success where there is no problem, and a validation error with the
/// problem's message where there is one.
pub open spec fn reports(r: Result<(), AppError>, problem: Option<Seq<char>>) -> bool {
    match problem {
        None => r is Ok,
        Some(m) => r matches Err(AppError::Validation(msg)) && msg@ == m,
    }
}

pub open spec fn is_digit(c: char) -> bool {
    '0' <= c && c <= '9'
}

pub open spec fn all_digits(s: Seq<char>) -> bool {
    forall|i: int| 0 <= i < s.len() ==> is_digit(#[trigger] s[i])
}

pub open spec fn is_sign(c: char) -> bool {
    c == '+' || c == '-'
}

/// `s` spells the lowercase word `w`, each letter in either case.
pub open spec fn matches_ignoring_case(s: Seq<char>, w: Seq<char>) -> bool {
    &&& s.len() == w.len()
    &&& forall|i: int|
        0 <= i < s.len() ==> #[trigger] s[i] == w[i] || (w[i] as u32) - 32 == (s[i] as u32)
}

/// Digits with at most one decimal point among them, and at least one digit.
pub open spec fn is_mantissa(s: Seq<char>) -> bool {
    &&& forall|i: int| 0 <= i < s.len() ==> is_digit(#[trigger] s[i]) || s[i] == '.'
    &&& forall|i: int, j: int| 0 <= i < j < s.len() ==> !(#[trigger] s[i] == '.' && #[trigger] s[j] == '.')
    &&& exists|i: int| 0 <= i < s.len() && is_digit(#[trigger] s[i])
}

pub open spec fn is_exponent_mark(c: char) -> bool {
    c == 'e' || c == 'E'
}

/// Digits, at least one, after an optional sign.
pub open spec fn is_signed_digits(s: Seq<char>) -> bool {
    if s.len() > 0 && is_sign(s[0]) {
        s.len() > 1 && all_digits(s.drop_first())
    } else {
        s.len() > 0 && all_digits(s)
    }
}

/// A mantissa, optionally followed by an exponent mark and signed digits.
pub open spec fn is_number(s: Seq<char>) -> bool {
    is_mantissa(s) || exists|k: int|
        0 <= k < s.len() && is_exponent_mark(#[trigger] s[k]) && is_mantissa(s.subrange(0, k))
            && is_signed_digits(s.subrange(k + 1, s.len() as int))
}

pub open spec fn without_sign(s: Seq<char>) -> Seq<char> {
    if s.len() > 0 && is_sign(s[0]) {
        s.drop_first()
    } else {
        s
    }
}

/// A decimal number as the standard library reads one: an optional sign, then
/// `inf`, `infinity` or `nan` in any case, or digits with an optional decimal point
/// and an optional exponent.
pub open spec fn is_decimal_literal(s: Seq<char>) -> bool {
    let u = without_sign(s);
    matches_ignoring_case(u, seq!['i', 'n', 'f']) || matches_ignoring_case(
        u,
        seq!['i', 'n', 'f', 'i', 'n', 'i', 't', 'y'],
    ) || matches_ignoring_case(u, seq!['n', 'a', 'n']) || is_number(u)
}

pub open spec fn digit_value(c: char) -> int {
    (c as u32) - 48
}

/// The number that a string of decimal digits denotes.
pub open spec fn digits_value(s: Seq<char>) -> int
    decreases s.len(),
{
    if s.len() == 0 {
        0
    } else {
        digits_value(s.drop_last()) * 10 + digit_value(s.last())
    }
}

/// An unsigned 32-bit integer as the standard library reads one: an optional `+`,
/// then digits whose value fits.
pub open spec fn is_u32_literal(s: Seq<char>) -> bool {
    let d = if s.len() > 0 && s[0] == '+' {
        s.drop_first()
    } else {
        s
    };
    d.len() > 0 && all_digits(d) && digits_value(d) <= u32::MAX
}

/// A CPU quantity: whole millicores written with the suffix `m`, or a decimal core count.
pub open spec fn is_cpu_quantity(s: Seq<char>) -> bool {
    if s.len() > 0 && s.last() == 'm' {
        is_u32_literal(s.drop_last())
    } else {
        is_decimal_literal(s)
    }
}

/// The letters that start a unit suffix: `K`, `M`, `G`, `T`, `P`, `E`.
pub open spec fn is_unit_letter(c: char) -> bool {
    c == 'K' || c == 'M' || c == 'G' || c == 'T' || c == 'P' || c == 'E'
}

/// Length of the unit suffix that `s` ends with: 2 for `Ki`, `Mi`, `Gi`, `Ti`, `Pi`,
/// `Ei`; 1 for `K`, `M`, `G`, `T`, `P`, `E`; 0 where it ends with none of them.
pub open spec fn unit_suffix_len(s: Seq<char>) -> int {
    if s.len() >= 2 && s.last() == 'i' && is_unit_letter(s[s.len() - 2]) {
        2
    } else if s.len() >= 1 && is_unit_letter(s.last()) {
        1
    } else {
        0
    }
}

/// A memory or storage quantity: a decimal number followed by a unit suffix.
pub open spec fn is_memory_quantity(s: Seq<char>) -> bool {
    unit_suffix_len(s) > 0 && is_decimal_literal(s.subrange(0, s.len() - unit_suffix_len(s)))
}

pub open spec fn is_name_char(c: char) -> bool {
    ('a' <= c && c <= 'z') || is_digit(c) || c == '-'
}

pub open spec fn is_ascii_letter(c: char) -> bool {
    ('a' <= c && c <= 'z') || ('A' <= c && c <= 'Z')
}

pub open spec fn is_identifier_char(c: char) -> bool {
    is_ascii_letter(c) || is_digit(c) || c == '_'
}

pub open spec fn resource_name_problem(s: Seq<char>) -> Option<Seq<char>> {
    if s.len() == 0 {
        Some("Resource name cannot be empty"@)
    } else if utf8_len(s) > MAX_NAME_BYTES {
        Some("Resource name cannot exceed 253 characters"@)
    } else if !(forall|i: int| 0 <= i < s.len() ==> is_name_char(#[trigger] s[i])) || s[0] == '-'
        || s.last() == '-' {
        Some(
            "Resource name must be lowercase alphanumeric characters or '-', and cannot start or end with '-'"@,
        )
    } else {
        None
    }
}

pub open spec fn namespace_problem(s: Seq<char>) -> Option<Seq<char>> {
    if s.len() == 0 {
        Some("Namespace cannot be empty"@)
    } else if resource_name_problem(s) is Some {
        resource_name_problem(s)
    } else if s == seq!['.'] || s == seq!['.', '.'] {
        Some("Namespace cannot be '.' or '..'"@)
    } else {
        None
    }
}

pub open spec fn cpu_problem(s: Seq<char>) -> Option<Seq<char>> {
    if s.len() == 0 {
        Some("CPU resource cannot be empty"@)
    } else if !is_cpu_quantity(s) {
        Some("Invalid CPU format. Use formats like '100m', '1', or '2.5'"@)
    } else {
        None
    }
}

pub open spec fn memory_problem(s: Seq<char>) -> Option<Seq<char>> {
    if s.len() == 0 {
        Some("Memory resource cannot be empty"@)
    } else if unit_suffix_len(s) == 0 {
        Some("Invalid memory format. Use formats like '1Gi', '500Mi', '2G'"@)
    } else if !is_decimal_literal(s.subrange(0, s.len() - unit_suffix_len(s))) {
        Some("Invalid memory format. Numeric part must be a valid number"@)
    } else {
        None
    }
}

pub open spec fn image_problem(s: Seq<char>) -> Option<Seq<char>> {
    if s.len() == 0 {
        Some("Container image cannot be empty"@)
    } else if !s.contains('/') && !s.contains(':') && utf8_len(s) < 2 {
        Some(
            "Invalid image format. Use formats like 'nginx', 'nginx:latest', or 'registry/image:tag'"@,
        )
    } else {
        None
    }
}

pub open spec fn database_name_problem(s: Seq<char>) -> Option<Seq<char>> {
    if s.len() == 0 {
        Some("Database name cannot be empty"@)
    } else if utf8_len(s) > MAX_DATABASE_NAME_BYTES {
        Some("Database name cannot exceed 63 characters"@)
    } else if !is_ascii_letter(s[0]) && s[0] != '_' {
        Some("Database name must start with a letter or underscore"@)
    } else if !(forall|i: int| 0 <= i < s.len() ==> is_identifier_char(#[trigger] s[i])) {
        Some("Database name can only contain letters, digits, and underscores"@)
    } else {
        None
    }
}

pub open spec fn instance_count_problem(n: int) -> Option<Seq<char>> {
    if n < 1 {
        Some("Instance count must be at least 1"@)
    } else if n > MAX_INSTANCES {
        Some("Instance count cannot exceed 10 for safety reasons"@)
    } else {
        None
    }
}

fn invalid(message: &str) -> (r: Result<(), AppError>)
    ensures
        r matches Err(AppError::Validation(m)) && m@ == message@,
{
    Err(AppError::Validation(String::from_str(message)))
}

/// The characters of `s`.
fn chars_of(s: &str) -> (r: Vec<char>)
    ensures
        r@ == s@,
{
    let n = s.unicode_len();
    let mut out: Vec<char> = Vec::new();
    let mut i: usize = 0;
    while i < n
        invariant
            n == s@.len(),
            0 <= i <= n,
            out@ =~= s@.subrange(0, i as int),
        decreases n - i,
    {
        out.push(s.get_char(i));
        i = i + 1;
    }
    assert(out@ =~= s@);
    out
}

fn digit_char(c: char) -> (r: bool)
    ensures
        r == is_digit(c),
{
    '0' <= c && c <= '9'
}

/// Whether `v[lo..hi]` spells the lowercase word `w` in any case.
fn matches_word(v: &Vec<char>, lo: usize, hi: usize, w: &Vec<char>) -> (r: bool)
    requires
        lo <= hi <= v@.len(),
        forall|i: int| 0 <= i < w@.len() ==> 'a' <= #[trigger] w@[i] && w@[i] <= 'z',
    ensures
        r == matches_ignoring_case(v@.subrange(lo as int, hi as int), w@),
{
    let ghost s = v@.subrange(lo as int, hi as int);
    if hi - lo != w.len() {
        return false;
    }
    let mut i: usize = 0;
    while i < w.len()
        invariant
            s == v@.subrange(lo as int, hi as int),
            hi - lo == w@.len(),
            lo <= hi <= v@.len(),
            0 <= i <= w@.len(),
            forall|j: int| 0 <= j < w@.len() ==> 'a' <= #[trigger] w@[j] && w@[j] <= 'z',
            forall|j: int| 0 <= j < i ==> #[trigger] s[j] == w@[j] || (w@[j] as u32) - 32 == (s[j] as u32),
        decreases w@.len() - i,
    {
        let c = v[lo + i];
        let d = w[i];
        assert(s[i as int] == c);
        if !(c == d || (d as u32) - 32 == (c as u32)) {
            return false;
        }
        i = i + 1;
    }
    true
}

/// Whether `v[lo..hi]` is a mantissa.
fn scan_mantissa(v: &Vec<char>, lo: usize, hi: usize) -> (r: bool)
    requires
        lo <= hi <= v@.len(),
    ensures
        r == is_mantissa(v@.subrange(lo as int, hi as int)),
{
    let ghost s = v@.subrange(lo as int, hi as int);
    let mut dot: Option<usize> = None;
    let mut digit: Option<usize> = None;
    let mut i: usize = lo;
    while i < hi
        invariant
            s == v@.subrange(lo as int, hi as int),
            lo <= i <= hi <= v@.len(),
            forall|j: int| 0 <= j < i - lo ==> is_digit(#[trigger] s[j]) || s[j] == '.',
            match dot {
                Some(d) => lo <= d < i && v@[d as int] == '.' && forall|j: int|
                    0 <= j < i - lo && j != d - lo ==> #[trigger] s[j] != '.',
                None => forall|j: int| 0 <= j < i - lo ==> #[trigger] s[j] != '.',
            },
            match digit {
                Some(d) => lo <= d < i && is_digit(v@[d as int]),
                None => forall|j: int| 0 <= j < i - lo ==> !is_digit(#[trigger] s[j]),
            },
        decreases hi - i,
    {
        let c = v[i];
        assert(s[i - lo] == c);
        if c == '.' {
            if dot.is_some() {
                let d = dot.unwrap();
                assert(s[d - lo] == '.');
                return false;
            }
            dot = Some(i);
        } else if digit_char(c) {
            digit = Some(i);
        } else {
            return false;
        }
        i = i + 1;
    }
    match digit {
        Some(d) => {
            assert(is_digit(s[d - lo]));
            true
        },
        None => false,
    }
}

fn all_digits_in(v: &Vec<char>, lo: usize, hi: usize) -> (r: bool)
    requires
        lo <= hi <= v@.len(),
    ensures
        r == all_digits(v@.subrange(lo as int, hi as int)),
{
    let ghost s = v@.subrange(lo as int, hi as int);
    let mut i: usize = lo;
    while i < hi
        invariant
            s == v@.subrange(lo as int, hi as int),
            lo <= i <= hi <= v@.len(),
            forall|j: int| 0 <= j < i - lo ==> is_digit(#[trigger] s[j]),
        decreases hi - i,
    {
        assert(s[i - lo] == v@[i as int]);
        if !digit_char(v[i]) {
            return false;
        }
        i = i + 1;
    }
    true
}

fn scan_signed_digits(v: &Vec<char>, lo: usize, hi: usize) -> (r: bool)
    requires
        lo <= hi <= v@.len(),
    ensures
        r == is_signed_digits(v@.subrange(lo as int, hi as int)),
{
    let ghost s = v@.subrange(lo as int, hi as int);
    if lo < hi && (v[lo] == '+' || v[lo] == '-') {
        assert(s.drop_first() =~= v@.subrange(lo + 1, hi as int));
        lo + 1 < hi && all_digits_in(v, lo + 1, hi)
    } else {
        lo < hi && all_digits_in(v, lo, hi)
    }
}

/// Whether `v[lo..hi]` is a mantissa with an optional exponent.
fn scan_number(v: &Vec<char>, lo: usize, hi: usize) -> (r: bool)
    requires
        lo <= hi <= v@.len(),
    ensures
        r == is_number(v@.subrange(lo as int, hi as int)),
{
    let ghost s = v@.subrange(lo as int, hi as int);
    let mut k: usize = lo;
    while k < hi && !(v[k] == 'e' || v[k] == 'E')
        invariant
            s == v@.subrange(lo as int, hi as int),
            lo <= k <= hi <= v@.len(),
            forall|j: int| 0 <= j < k - lo ==> !is_exponent_mark(#[trigger] s[j]),
        decreases hi - k,
    {
        assert(s[k - lo] == v@[k as int]);
        k = k + 1;
    }
    if k == hi {
        let r = scan_mantissa(v, lo, hi);
        proof {
            assert(!exists|j: int|
                0 <= j < s.len() && is_exponent_mark(#[trigger] s[j]) && is_mantissa(
                    s.subrange(0, j),
                ) && is_signed_digits(s.subrange(j + 1, s.len() as int)));
        }
        r
    } else {
        let ghost kk = k - lo;
        assert(s[kk] == v@[k as int]);
        assert(!is_mantissa(s));
        let m = scan_mantissa(v, lo, k);
        let e = scan_signed_digits(v, k + 1, hi);
        proof {
            assert(s.subrange(0, kk) =~= v@.subrange(lo as int, k as int));
            assert(s.subrange(kk + 1, s.len() as int) =~= v@.subrange(k + 1, hi as int));
            assert forall|j: int|
                0 <= j < s.len() && is_exponent_mark(#[trigger] s[j]) && is_mantissa(
                    s.subrange(0, j),
                ) implies j == kk by {
                if j > kk {
                    let t = s.subrange(0, j);
                    assert(t[kk] == s[kk]);
                }
            }
        }
        m && e
    }
}

/// Whether `s` is a decimal number as the standard library reads one.
pub fn is_decimal(s: &str) -> (r: bool)
    ensures
        r == is_decimal_literal(s@),
{
    let v = chars_of(s);
    let n = v.len();
    let lo: usize = if n > 0 && (v[0] == '+' || v[0] == '-') {
        1
    } else {
        0
    };
    proof {
        if lo == 1 {
            assert(without_sign(s@) =~= v@.subrange(1, n as int));
        } else {
            assert(without_sign(s@) =~= v@.subrange(0, n as int));
        }
    }
    let inf = vec!['i', 'n', 'f'];
    let infinity = vec!['i', 'n', 'f', 'i', 'n', 'i', 't', 'y'];
    let nan = vec!['n', 'a', 'n'];
    assert(inf@ =~= seq!['i', 'n', 'f']);
    assert(infinity@ =~= seq!['i', 'n', 'f', 'i', 'n', 'i', 't', 'y']);
    assert(nan@ =~= seq!['n', 'a', 'n']);
    matches_word(&v, lo, n, &inf) || matches_word(&v, lo, n, &infinity) || matches_word(
        &v,
        lo,
        n,
        &nan,
    ) || scan_number(&v, lo, n)
}

proof fn lemma_digits_value_prefix(s: Seq<char>, i: int)
    requires
        all_digits(s),
        0 <= i <= s.len(),
    ensures
        0 <= digits_value(s.subrange(0, i)) <= digits_value(s),
    decreases s.len(),
{
    if s.len() > 0 {
        let d = s.drop_last();
        assert(all_digits(d)) by {
            assert forall|j: int| 0 <= j < d.len() implies is_digit(#[trigger] d[j]) by {
                assert(d[j] == s[j]);
            }
        }
        assert(is_digit(s[s.len() - 1]));
        if i == s.len() {
            assert(s.subrange(0, i) =~= s);
            lemma_digits_value_prefix(d, d.len() as int);
            assert(d.subrange(0, d.len() as int) =~= d);
        } else {
            lemma_digits_value_prefix(d, i);
            assert(s.subrange(0, i) =~= d.subrange(0, i));
            lemma_digits_value_prefix(d, d.len() as int);
            assert(d.subrange(0, d.len() as int) =~= d);
        }
    }
}

/// Whether `s` is an unsigned 32-bit integer as the standard library reads one.
pub fn is_u32(s: &str) -> (r: bool)
    ensures
        r == is_u32_literal(s@),
{
    let v = chars_of(s);
    let n = v.len();
    let lo: usize = if n > 0 && v[0] == '+' {
        1
    } else {
        0
    };
    let ghost d = v@.subrange(lo as int, n as int);
    proof {
        if lo == 1 {
            assert(s@.drop_first() =~= d);
        } else {
            assert(s@ =~= d);
        }
    }
    if lo == n {
        return false;
    }
    if !all_digits_in(&v, lo, n) {
        return false;
    }
    let mut acc: u64 = 0;
    let mut i: usize = lo;
    while i < n
        invariant
            d == v@.subrange(lo as int, n as int),
            v@ == s@,
            lo == 1 <==> (s@.len() > 0 && s@[0] == '+'),
            lo <= 1,
            all_digits(d),
            lo <= i <= n == v@.len(),
            acc as int == digits_value(d.subrange(0, i - lo)),
            acc <= u32::MAX,
        decreases n - i,
    {
        let c = v[i];
        assert(d[i - lo] == c);
        assert(is_digit(c));
        proof {
            let p = d.subrange(0, i - lo + 1);
            assert(p.drop_last() =~= d.subrange(0, i - lo));
            assert(p.last() == c);
        }
        acc = acc * 10 + ((c as u32) - 48) as u64;
        assert(acc as int == digits_value(d.subrange(0, i - lo + 1)));
        if acc > u32::MAX as u64 {
            proof {
                lemma_digits_value_prefix(d, i - lo + 1);
                if lo == 1 {
                    assert(s@.drop_first() =~= d);
                } else {
                    assert(s@ =~= d);
                }
            }
            return false;
        }
        i = i + 1;
    }
    assert(d.subrange(0, n - lo) =~= d);
    true
}

/// Validates a resource name: not empty, at most 253 bytes, lowercase letters,
/// digits and `-` only, and neither starting nor ending with `-`.
pub fn validate_resource_name(name: &str) -> (r: Result<(), AppError>)
    ensures
        reports(r, resource_name_problem(name@)),
{
    if name.is_empty() {
        return invalid("Resource name cannot be empty");
    }
    if name.as_bytes().len() > MAX_NAME_BYTES {
        return invalid("Resource name cannot exceed 253 characters");
    }
    let v = chars_of(name);
    let n = v.len();
    let mut ok = v[0] != '-' && v[n - 1] != '-';
    let mut i: usize = 0;
    while i < n
        invariant
            v@ == name@,
            n == v@.len(),
            0 <= i <= n,
            ok ==> v@[0] != '-' && v@[n - 1] != '-',
            ok ==> forall|j: int| 0 <= j < i ==> is_name_char(#[trigger] v@[j]),
            !ok ==> !(forall|j: int| 0 <= j < n ==> is_name_char(#[trigger] v@[j])) || v@[0]
                == '-' || v@[n - 1] == '-',
        decreases n - i,
    {
        let c = v[i];
        if !(('a' <= c && c <= 'z') || digit_char(c) || c == '-') {
            ok = false;
        }
        i = i + 1;
    }
    if !ok {
        return invalid(
            "Resource name must be lowercase alphanumeric characters or '-', and cannot start or end with '-'",
        );
    }
    Ok(())
}

/// Validates a namespace: a valid resource name, other than `.` and `..`.
pub fn validate_namespace(namespace: &str) -> (r: Result<(), AppError>)
    ensures
        reports(r, namespace_problem(namespace@)),
{
    if namespace.is_empty() {
        return invalid("Namespace cannot be empty");
    }
    let checked = validate_resource_name(namespace);
    if checked.is_err() {
        return checked;
    }
    let n = namespace.unicode_len();
    if (n == 1 && namespace.get_char(0) == '.') || (n == 2 && namespace.get_char(0) == '.'
        && namespace.get_char(1) == '.') {
        return invalid("Namespace cannot be '.' or '..'");
    }
    proof {
        assert(namespace@ != seq!['.'] && namespace@ != seq!['.', '.']) by {
            if namespace@ == seq!['.'] || namespace@ == seq!['.', '.'] {
                assert(namespace@[0] == '.');
            }
        }
    }
    Ok(())
}

/// Validates a CPU quantity: whole millicores such as `100m`, or a decimal core
/// count such as `1` or `2.5`.
pub fn validate_cpu_resource(cpu: &str) -> (r: Result<(), AppError>)
    ensures
        reports(r, cpu_problem(cpu@)),
        r is Ok <==> cpu@.len() > 0 && is_cpu_quantity(cpu@),
{
    if cpu.is_empty() {
        return invalid("CPU resource cannot be empty");
    }
    let n = cpu.unicode_len();
    let valid = if cpu.get_char(n - 1) == 'm' {
        is_u32(cpu.substring_char(0, n - 1))
    } else {
        is_decimal(cpu)
    };
    proof {
        assert(cpu@.subrange(0, n - 1) =~= cpu@.drop_last());
    }
    if !valid {
        return invalid("Invalid CPU format. Use formats like '100m', '1', or '2.5'");
    }
    Ok(())
}

fn unit_letter(c: char) -> (r: bool)
    ensures
        r == is_unit_letter(c),
{
    c == 'K' || c == 'M' || c == 'G' || c == 'T' || c == 'P' || c == 'E'
}

/// Validates a memory quantity: a decimal number followed by one of the unit
/// suffixes `Ki`, `Mi`, `Gi`, `Ti`, `Pi`, `Ei`, `K`, `M`, `G`, `T`, `P`, `E`.
pub fn validate_memory_resource(memory: &str) -> (r: Result<(), AppError>)
    ensures
        reports(r, memory_problem(memory@)),
        r is Ok <==> is_memory_quantity(memory@),
{
    if memory.is_empty() {
        return invalid("Memory resource cannot be empty");
    }
    let n = memory.unicode_len();
    let last = memory.get_char(n - 1);
    let suffix: usize = if n >= 2 && last == 'i' && unit_letter(memory.get_char(n - 2)) {
        2
    } else if unit_letter(last) {
        1
    } else {
        0
    };
    if suffix == 0 {
        return invalid("Invalid memory format. Use formats like '1Gi', '500Mi', '2G'");
    }
    if !is_decimal(memory.substring_char(0, n - suffix)) {
        return invalid("Invalid memory format. Numeric part must be a valid number");
    }
    Ok(())
}

/// Validates a storage size, which follows the rules of memory quantities.
pub fn validate_storage_size(size: &str) -> (r: Result<(), AppError>)
    ensures
        reports(r, memory_problem(size@)),
        r is Ok <==> is_memory_quantity(size@),
{
    validate_memory_resource(size)
}

fn contains_char(s: &str, c: char) -> (r: bool)
    ensures
        r == s@.contains(c),
{
    let n = s.unicode_len();
    let mut i: usize = 0;
    while i < n
        invariant
            n == s@.len(),
            0 <= i <= n,
            forall|j: int| 0 <= j < i ==> s@[j] != c,
        decreases n - i,
    {
        if s.get_char(i) == c {
            return true;
        }
        i = i + 1;
    }
    false
}

/// Validates a container image reference: not empty, and not a single character
/// unless that is a registry or tag separator.
pub fn validate_image_name(image: &str) -> (r: Result<(), AppError>)
    ensures
        reports(r, image_problem(image@)),
{
    if image.is_empty() {
        return invalid("Container image cannot be empty");
    }
    if !contains_char(image, '/') && !contains_char(image, ':') && image.as_bytes().len() < 2 {
        return invalid(
            "Invalid image format. Use formats like 'nginx', 'nginx:latest', or 'registry/image:tag'",
        );
    }
    Ok(())
}

/// Validates a PostgreSQL identifier: not empty, at most 63 bytes, starting with a
/// letter or underscore, and made of letters, digits and underscores.
pub fn validate_database_name(db_name: &str) -> (r: Result<(), AppError>)
    ensures
        reports(r, database_name_problem(db_name@)),
{
    if db_name.is_empty() {
        return invalid("Database name cannot be empty");
    }
    if db_name.as_bytes().len() > MAX_DATABASE_NAME_BYTES {
        return invalid("Database name cannot exceed 63 characters");
    }
    let v = chars_of(db_name);
    let first = v[0];
    if !(('a' <= first && first <= 'z') || ('A' <= first && first <= 'Z')) && first != '_' {
        return invalid("Database name must start with a letter or underscore");
    }
    let n = v.len();
    let mut i: usize = 0;
    while i < n
        invariant
            v@ == db_name@,
            n == v@.len(),
            n > 0,
            is_ascii_letter(v@[0]) || v@[0] == '_',
            utf8_len(db_name@) <= MAX_DATABASE_NAME_BYTES,
            0 <= i <= n,
            forall|j: int| 0 <= j < i ==> is_identifier_char(#[trigger] v@[j]),
        decreases n - i,
    {
        let c = v[i];
        if !(('a' <= c && c <= 'z') || ('A' <= c && c <= 'Z') || digit_char(c) || c == '_') {
            assert(!is_identifier_char(db_name@[i as int]));
            return invalid("Database name can only contain letters, digits, and underscores");
        }
        i = i + 1;
    }
    Ok(())
}

/// Validates the instance count of a database cluster: between 1 and 10.
pub fn validate_instance_count(instances: i32) -> (r: Result<(), AppError>)
    ensures
        reports(r, instance_count_problem(instances as int)),
        r is Ok <==> 1 <= instances <= MAX_INSTANCES,
        r is Err ==> r->Err_0 is Validation,
{
    if instances < 1 {
        return invalid("Instance count must be at least 1");
    }
    if instances > MAX_INSTANCES {
        return invalid("Instance count cannot exceed 10 for safety reasons");
    }
    Ok(())
}


/// The first of two problems, where there is one.
pub open spec fn first_problem(a: Option<Seq<char>>, b: Option<Seq<char>>) -> Option<Seq<char>> {
    if a is Some {
        a
    } else {
        b
    }
}

/// The problem of an optional namespace; none where it is absent.
pub open spec fn opt_namespace_problem(o: Option<String>) -> Option<Seq<char>> {
    match o {
        Some(s) => namespace_problem(s@),
        None => None,
    }
}

/// The problem of an optional CPU quantity; none where it is absent.
pub open spec fn opt_cpu_problem(o: Option<String>) -> Option<Seq<char>> {
    match o {
        Some(s) => cpu_problem(s@),
        None => None,
    }
}

/// The problem of an optional memory or storage quantity; none where it is absent.
pub open spec fn opt_memory_problem(o: Option<String>) -> Option<Seq<char>> {
    match o {
        Some(s) => memory_problem(s@),
        None => None,
    }
}

/// The problem of an optional image reference; none where it is absent.
pub open spec fn opt_image_problem(o: Option<String>) -> Option<Seq<char>> {
    match o {
        Some(s) => image_problem(s@),
        None => None,
    }
}

/// The problem of an optional instance count; none where it is absent.
pub open spec fn opt_instance_count_problem(o: Option<i32>) -> Option<Seq<char>> {
    match o {
        Some(n) => instance_count_problem(n as int),
        None => None,
    }
}

/// The problem of the address of a resource: its namespace first, then its name.
pub open spec fn identity_problem(namespace: Seq<char>, name: Seq<char>) -> Option<Seq<char>> {
    first_problem(namespace_problem(namespace), resource_name_problem(name))
}

pub fn validate_optional_namespace(namespace: &Option<String>) -> (r: Result<(), AppError>)
    ensures
        reports(r, opt_namespace_problem(*namespace)),
{
    match namespace {
        Some(ns) => validate_namespace(ns.as_str()),
        None => Ok(()),
    }
}

pub fn validate_optional_cpu(cpu: &Option<String>) -> (r: Result<(), AppError>)
    ensures
        reports(r, opt_cpu_problem(*cpu)),
{
    match cpu {
        Some(c) => validate_cpu_resource(c.as_str()),
        None => Ok(()),
    }
}

pub fn validate_optional_memory(memory: &Option<String>) -> (r: Result<(), AppError>)
    ensures
        reports(r, opt_memory_problem(*memory)),
{
    match memory {
        Some(m) => validate_memory_resource(m.as_str()),
        None => Ok(()),
    }
}

pub fn validate_optional_image(image: &Option<String>) -> (r: Result<(), AppError>)
    ensures
        reports(r, opt_image_problem(*image)),
{
    match image {
        Some(i) => validate_image_name(i.as_str()),
        None => Ok(()),
    }
}

pub fn validate_optional_instance_count(instances: Option<i32>) -> (r: Result<(), AppError>)
    ensures
        reports(r, opt_instance_count_problem(instances)),
{
    match instances {
        Some(n) => validate_instance_count(n),
        None => Ok(()),
    }
}

/// Validates the address of a resource: the namespace, then the name.
pub fn validate_identity(namespace: &str, name: &str) -> (r: Result<(), AppError>)
    ensures
        reports(r, identity_problem(namespace@, name@)),
{
    let checked = validate_namespace(namespace);
    if checked.is_err() {
        return checked;
    }
    validate_resource_name(name)
}

} // verus!
