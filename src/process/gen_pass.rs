use vstd::prelude::*;

use rand::seq::SliceRandom;

verus! {

/// Uppercase letters other than the look-alikes `I` and `O`.
pub open spec fn is_upper(c: char) -> bool {
    'A' <= c && c <= 'Z' && c != 'I' && c != 'O'
}

/// Lowercase letters other than the look-alikes `l` and `o`.
pub open spec fn is_lower(c: char) -> bool {
    'a' <= c && c <= 'z' && c != 'l' && c != 'o'
}

/// Digits other than the look-alikes `0` and `1`.
pub open spec fn is_number(c: char) -> bool {
    '2' <= c && c <= '9'
}

/// The fixed symbol set `!@#$%^&*_`.
pub open spec fn is_symbol(c: char) -> bool {
    c == '!' || c == '@' || c == '#' || c == '$' || c == '%' || c == '^' || c == '&' || c == '*'
        || c == '_'
}

/// Target length and the four character classes a password draws from.
#[derive(Clone, Copy, Debug, PartialEq, Eq, Structural)]
pub struct PasswordPolicy {
    pub length: u8,
    pub upper: bool,
    pub lower: bool,
    pub number: bool,
    pub symbol: bool,
}

/// How many classes the policy enables.
pub open spec fn class_count(p: PasswordPolicy) -> nat {
    (if p.upper { 1nat } else { 0nat }) + (if p.lower { 1nat } else { 0nat }) + (if p.number {
        1nat
    } else {
        0nat
    }) + (if p.symbol { 1nat } else { 0nat })
}

/// A policy can be met: some class is enabled and the length leaves room for
/// one character of each enabled class.
pub open spec fn policy_ok(p: PasswordPolicy) -> bool {
    class_count(p) > 0 && p.length >= class_count(p)
}

/// `c` belongs to one of the classes the policy enables.
pub open spec fn in_pool(p: PasswordPolicy, c: char) -> bool {
    (p.upper && is_upper(c)) || (p.lower && is_lower(c)) || (p.number && is_number(c)) || (p.symbol
        && is_symbol(c))
}

/// The four character classes.
#[derive(Clone, Copy, Debug, PartialEq, Eq, Structural)]
pub enum CharClass {
    Upper,
    Lower,
    Number,
    Symbol,
}

/// `c` belongs to class `k`.
pub open spec fn in_class(k: CharClass, c: char) -> bool {
    match k {
        CharClass::Upper => is_upper(c),
        CharClass::Lower => is_lower(c),
        CharClass::Number => is_number(c),
        CharClass::Symbol => is_symbol(c),
    }
}

/// The policy enables class `k`.
pub open spec fn enabled(p: PasswordPolicy, k: CharClass) -> bool {
    match k {
        CharClass::Upper => p.upper,
        CharClass::Lower => p.lower,
        CharClass::Number => p.number,
        CharClass::Symbol => p.symbol,
    }
}

/// Some character of `s` belongs to class `k`.
pub open spec fn has_class(s: Seq<char>, k: CharClass) -> bool {
    exists|i: int| 0 <= i < s.len() && #[trigger] in_class(k, s[i])
}

/// `s` meets the policy: it has the requested length, only characters of
/// enabled classes, and for each class at least one character exactly when the
/// class is enabled (so none of a disabled one).
pub open spec fn meets_policy(p: PasswordPolicy, s: Seq<char>) -> bool {
    &&& s.len() == p.length
    &&& forall|i: int| 0 <= i < s.len() ==> in_pool(p, #[trigger] s[i])
    &&& forall|k: CharClass| #[trigger] has_class(s, k) <==> enabled(p, k)
}

/// Why no password was produced.
#[derive(Clone, Copy, Debug, PartialEq, Eq, Structural)]
pub enum GenPassError {
    /// Every character class is disabled.
    NoClassEnabled,
    /// The length is below the number of enabled classes.
    TooShort { length: u8, required: u8 },
    /// The strength estimate could not be computed.
    Strength,
}

/// A generated password with its estimated strength (0 weakest to 4).
#[derive(Clone, Debug)]
pub struct GeneratedPassword {
    pub password: String,
    pub score: u8,
}

/// Relies on rand's `SliceRandom::choose` with the thread-local generator:
/// some element of a non-empty slice.
#[verifier::external_body]
fn pick(set: &[char]) -> (r: char)
    requires
        set@.len() > 0,
    ensures
        set@.contains(r),
{
    *set.choose(&mut rand::thread_rng()).unwrap()
}

/// Relies on rand's `SliceRandom::shuffle` with the thread-local generator:
/// the elements are permuted in place.
#[verifier::external_body]
fn shuffle(v: &mut Vec<usize>)
    ensures
        final(v)@.to_multiset() == old(v)@.to_multiset(),
{
    v.shuffle(&mut rand::thread_rng())
}

/// Relies on `String`'s `FromIterator<char>`: the characters in order.
#[verifier::external_body]
fn collect_string(v: &Vec<char>) -> (r: String)
    ensures
        r@ == v@,
{
    v.iter().collect::<String>()
}

/// Relies on zxcvbn::zxcvbn (no user inputs) and `Entropy::score`: a score from
/// 0 to 4. Blank passwords are refused, and a failure to read the clock is
/// reported as an error too. The score also depends on the current year, so
/// nothing ties it to the password alone.
#[verifier::external_body]
fn strength_score(password: &str) -> (r: Option<u8>)
    ensures
        r matches Some(s) ==> s <= 4,
        password@.len() == 0 ==> r is None,
{
    zxcvbn::zxcvbn(password, &[]).ok().map(|e| e.score())
}

fn upper_chars() -> (r: Vec<char>)
    ensures
        r@.len() > 0,
        forall|i: int| 0 <= i < r@.len() ==> is_upper(#[trigger] r@[i]),
{
    vec![
        'A', 'B', 'C', 'D', 'E', 'F', 'G', 'H', 'J', 'K', 'L', 'M', 'N', 'P', 'Q', 'R', 'S', 'T',
        'U', 'V', 'W', 'X', 'Y', 'Z',
    ]
}

fn lower_chars() -> (r: Vec<char>)
    ensures
        r@.len() > 0,
        forall|i: int| 0 <= i < r@.len() ==> is_lower(#[trigger] r@[i]),
{
    vec![
        'a', 'b', 'c', 'd', 'e', 'f', 'g', 'h', 'i', 'j', 'k', 'm', 'n', 'p', 'q', 'r', 's', 't',
        'u', 'v', 'w', 'x', 'y', 'z',
    ]
}

fn number_chars() -> (r: Vec<char>)
    ensures
        r@.len() > 0,
        forall|i: int| 0 <= i < r@.len() ==> is_number(#[trigger] r@[i]),
{
    vec!['2', '3', '4', '5', '6', '7', '8', '9']
}

fn symbol_chars() -> (r: Vec<char>)
    ensures
        r@.len() > 0,
        forall|i: int| 0 <= i < r@.len() ==> is_symbol(#[trigger] r@[i]),
{
    vec!['!', '@', '#', '$', '%', '^', '&', '*', '_']
}

/// Counts the enabled classes and rejects a policy that cannot be met. Draws
/// nothing at random.
pub fn check_policy(p: &PasswordPolicy) -> (r: Result<u8, GenPassError>)
    ensures
        r matches Ok(n) ==> n as nat == class_count(*p) && policy_ok(*p),
        r is Ok <==> policy_ok(*p),
        r == Err::<u8, GenPassError>(GenPassError::NoClassEnabled) <==> class_count(*p) == 0,
        r matches Err(GenPassError::TooShort { length, required }) ==> length == p.length
            && required as nat == class_count(*p),
        r is Err && class_count(*p) > 0 ==> r matches Err(GenPassError::TooShort { .. }),
{
    let mut count: u8 = 0;
    if p.upper {
        count = count + 1;
    }
    if p.lower {
        count = count + 1;
    }
    if p.number {
        count = count + 1;
    }
    if p.symbol {
        count = count + 1;
    }
    if count == 0 {
        Err(GenPassError::NoClassEnabled)
    } else if p.length < count {
        Err(GenPassError::TooShort { length: p.length, required: count })
    } else {
        Ok(count)
    }
}

/// The enabled classes in the order their seed characters are drawn: upper,
/// lower, number, symbol.
pub open spec fn enabled_classes(p: PasswordPolicy) -> Seq<CharClass> {
    (if p.upper { seq![CharClass::Upper] } else { Seq::empty() }) + (if p.lower {
        seq![CharClass::Lower]
    } else {
        Seq::empty()
    }) + (if p.number { seq![CharClass::Number] } else { Seq::empty() }) + (if p.symbol {
        seq![CharClass::Symbol]
    } else {
        Seq::empty()
    })
}

/// One seed character per enabled class, in the order of `enabled_classes`.
pub open spec fn seeds_ok(p: PasswordPolicy, seeds: Seq<char>) -> bool {
    &&& seeds.len() == enabled_classes(p).len()
    &&& forall|i: int| 0 <= i < seeds.len() ==> in_class(enabled_classes(p)[i], #[trigger] seeds[i])
}

/// Fill characters from the pool that bring the seeds up to the length.
pub open spec fn fills_ok(p: PasswordPolicy, fills: Seq<char>) -> bool {
    &&& fills.len() + class_count(p) == p.length
    &&& forall|i: int| 0 <= i < fills.len() ==> in_pool(p, #[trigger] fills[i])
}

/// The positions `0..n`, in order.
pub open spec fn positions(n: nat) -> Seq<usize> {
    Seq::new(n, |i: int| i as usize)
}

/// `order` is a permutation of the positions `0..n`.
pub open spec fn is_permutation(order: Seq<usize>, n: nat) -> bool {
    order.to_multiset() == positions(n).to_multiset()
}

/// The characters of `buf` taken in the order `order` gives.
pub open spec fn arranged(buf: Seq<char>, order: Seq<usize>) -> Seq<char> {
    Seq::new(order.len(), |i: int| buf[order[i] as int])
}

/// `s` is the seeds followed by the fills, shuffled once.
pub open spec fn drawn(p: PasswordPolicy, s: Seq<char>) -> bool {
    exists|seeds: Seq<char>, fills: Seq<char>, order: Seq<usize>|
        seeds_ok(p, seeds) && fills_ok(p, fills) && is_permutation(order, p.length as nat) && s
            == #[trigger] arranged(seeds + fills, order)
}

/// Two sequences with the same multiset hold the same elements.
proof fn lemma_same_elements<A>(a: Seq<A>, b: Seq<A>, x: A)
    requires
        a.to_multiset() == b.to_multiset(),
    ensures
        a.contains(x) <==> b.contains(x),
{
    vstd::seq_lib::to_multiset_contains(a, x);
    vstd::seq_lib::to_multiset_contains(b, x);
}

/// A permutation of `0..n` has length `n`, holds only positions below `n`,
/// and holds every one of them.
proof fn lemma_permutation(order: Seq<usize>, n: nat)
    requires
        is_permutation(order, n),
    ensures
        order.len() == n,
        forall|i: int| 0 <= i < order.len() ==> #[trigger] order[i] < n,
        forall|j: usize| j < n ==> #[trigger] order.contains(j),
{
    vstd::seq_lib::to_multiset_len(order);
    vstd::seq_lib::to_multiset_len(positions(n));
    assert forall|i: int| 0 <= i < order.len() implies #[trigger] order[i] < n by {
        lemma_same_elements(order, positions(n), order[i]);
        assert(order.contains(order[i]));
    }
    assert forall|j: usize| j < n implies #[trigger] order.contains(j) by {
        lemma_same_elements(order, positions(n), j);
        assert(positions(n)[j as int] == j);
    }
}

/// `enabled_classes` lists exactly the enabled classes, one each.
proof fn lemma_enabled_classes(p: PasswordPolicy)
    ensures
        enabled_classes(p).len() == class_count(p),
        forall|i: int| 0 <= i < enabled_classes(p).len() ==> enabled(p, #[trigger] enabled_classes(p)[i]),
        forall|k: CharClass| enabled(p, k) ==> #[trigger] enabled_classes(p).contains(k),
{
    let u = if p.upper { seq![CharClass::Upper] } else { Seq::<CharClass>::empty() };
    let l = if p.lower { seq![CharClass::Lower] } else { Seq::<CharClass>::empty() };
    let n = if p.number { seq![CharClass::Number] } else { Seq::<CharClass>::empty() };
    let y = if p.symbol { seq![CharClass::Symbol] } else { Seq::<CharClass>::empty() };
    let e = enabled_classes(p);
    assert(e == u + l + n + y);
    assert forall|k: CharClass| enabled(p, k) implies #[trigger] e.contains(k) by {
        match k {
            CharClass::Upper => assert(e[0] == k),
            CharClass::Lower => assert(e[u.len() as int] == k),
            CharClass::Number => assert(e[(u.len() + l.len()) as int] == k),
            CharClass::Symbol => assert(e[(u.len() + l.len() + n.len()) as int] == k),
        }
    }
}

/// Only characters of enabled classes: then a class is present only where it
/// is enabled.
proof fn lemma_pool_only(p: PasswordPolicy, s: Seq<char>, k: CharClass)
    requires
        forall|i: int| 0 <= i < s.len() ==> in_pool(p, #[trigger] s[i]),
        has_class(s, k),
    ensures
        enabled(p, k),
{
    let i = choose|i: int| 0 <= i < s.len() && #[trigger] in_class(k, s[i]);
    assert(in_pool(p, s[i]));
}

/// Seeds for the enabled classes and fills from the pool, shuffled by any
/// permutation, meet the policy: the requested length, only characters of
/// enabled classes, and each enabled class present.
pub proof fn lemma_draws_meet_policy(p: PasswordPolicy, seeds: Seq<char>, fills: Seq<char>, order: Seq<usize>)
    requires
        seeds_ok(p, seeds),
        fills_ok(p, fills),
        is_permutation(order, p.length as nat),
    ensures
        meets_policy(p, arranged(seeds + fills, order)),
{
    lemma_enabled_classes(p);
    lemma_permutation(order, p.length as nat);
    let buf = seeds + fills;
    let s = arranged(buf, order);
    assert(buf.len() == p.length);
    assert forall|j: int| 0 <= j < buf.len() implies in_pool(p, #[trigger] buf[j]) by {
        if j < seeds.len() {
            assert(in_class(enabled_classes(p)[j], seeds[j]));
            assert(enabled(p, enabled_classes(p)[j]));
        } else {
            assert(buf[j] == fills[j - seeds.len()]);
        }
    }
    assert forall|i: int| 0 <= i < s.len() implies in_pool(p, #[trigger] s[i]) by {
        assert(order[i] < p.length);
        assert(s[i] == buf[order[i] as int]);
    }
    assert forall|k: CharClass| #[trigger] has_class(s, k) <==> enabled(p, k) by {
        if has_class(s, k) {
            lemma_pool_only(p, s, k);
        }
        if enabled(p, k) {
            assert(enabled_classes(p).contains(k));
            let j = choose|j: int| 0 <= j < enabled_classes(p).len() && enabled_classes(p)[j] == k;
            assert(in_class(k, seeds[j]));
            assert(order.contains(j as usize));
            let i = choose|i: int| 0 <= i < order.len() && order[i] == j as usize;
            assert(s[i] == buf[j]);
            assert(in_class(k, s[i]));
        }
    }
}

/// Draws one random character of class `k` as a seed and adds the class to
/// the pool.
fn seed_class(seeds: &mut Vec<char>, pool: &mut Vec<char>, set: Vec<char>, Ghost(k): Ghost<CharClass>)
    requires
        set@.len() > 0,
        forall|i: int| 0 <= i < set@.len() ==> in_class(k, #[trigger] set@[i]),
    ensures
        final(seeds)@ == old(seeds)@.push(final(seeds)@.last()),
        in_class(k, final(seeds)@.last()),
        final(pool)@ == old(pool)@ + set@,
{
    let c = pick(set.as_slice());
    seeds.push(c);
    pool.extend_from_slice(set.as_slice());
}

/// Arranges the characters of `buf` in the order `order` gives; every entry of
/// `order` must be a position of `buf`.
fn arrange(buf: &Vec<char>, order: &Vec<usize>) -> (r: String)
    requires
        forall|i: int| 0 <= i < order@.len() ==> #[trigger] order@[i] < buf@.len(),
    ensures
        r@ == arranged(buf@, order@),
{
    let mut out: Vec<char> = Vec::new();
    let mut i: usize = 0;
    while i < order.len()
        invariant
            i <= order@.len(),
            forall|j: int| 0 <= j < order@.len() ==> #[trigger] order@[j] < buf@.len(),
            out@ == arranged(buf@, order@).subrange(0, i as int),
        decreases order@.len() - i,
    {
        out.push(buf[order[i]]);
        assert(out@ =~= arranged(buf@, order@).subrange(0, i + 1));
        i = i + 1;
    }
    assert(out@ =~= arranged(buf@, order@));
    collect_string(&out)
}

/// Builds a password from its draws: the seed characters followed by the fill
/// characters, taken in the order `order` gives. `None` where some entry of
/// `order` is not a position of that sequence.
pub fn arrange_password(seeds: &Vec<char>, fills: &Vec<char>, order: &Vec<usize>) -> (r: Option<String>)
    ensures
        r is None <==> exists|i: int| 0 <= i < order@.len() && #[trigger] order@[i] >= seeds@.len() + fills@.len(),
        r matches Some(s) ==> s@ == arranged(seeds@ + fills@, order@),
{
    let mut buf: Vec<char> = Vec::new();
    buf.extend_from_slice(seeds.as_slice());
    buf.extend_from_slice(fills.as_slice());
    let mut i: usize = 0;
    while i < order.len()
        invariant
            i <= order@.len(),
            buf@ == seeds@ + fills@,
            forall|j: int| 0 <= j < i ==> #[trigger] order@[j] < buf@.len(),
        decreases order@.len() - i,
    {
        if order[i] >= buf.len() {
            return None;
        }
        i = i + 1;
    }
    Some(arrange(&buf, order))
}

/// Generates a password that meets the policy: one random character of each
/// enabled class, random characters of the enabled classes up to the length,
/// then one random shuffle. An unmeetable policy fails before any draw.
pub fn generate_password(p: &PasswordPolicy) -> (r: Result<String, GenPassError>)
    ensures
        r is Ok <==> policy_ok(*p),
        r matches Ok(s) ==> drawn(*p, s@) && meets_policy(*p, s@),
        r == Err::<String, GenPassError>(GenPassError::NoClassEnabled) <==> class_count(*p) == 0,
        r matches Err(GenPassError::TooShort { length, required }) ==> length == p.length
            && required as nat == class_count(*p),
        r is Err && class_count(*p) > 0 ==> r matches Err(GenPassError::TooShort { .. }),
{
    let count = match check_policy(p) {
        Err(e) => {
            return Err(e);
        },
        Ok(n) => n,
    };
    let mut seeds: Vec<char> = Vec::new();
    let mut pool: Vec<char> = Vec::new();
    let ghost mut classes: Seq<CharClass> = Seq::empty();
    if p.upper {
        seed_class(&mut seeds, &mut pool, upper_chars(), Ghost(CharClass::Upper));
        proof { classes = classes.push(CharClass::Upper); }
    }
    if p.lower {
        seed_class(&mut seeds, &mut pool, lower_chars(), Ghost(CharClass::Lower));
        proof { classes = classes.push(CharClass::Lower); }
    }
    if p.number {
        seed_class(&mut seeds, &mut pool, number_chars(), Ghost(CharClass::Number));
        proof { classes = classes.push(CharClass::Number); }
    }
    if p.symbol {
        seed_class(&mut seeds, &mut pool, symbol_chars(), Ghost(CharClass::Symbol));
        proof { classes = classes.push(CharClass::Symbol); }
    }
    assert(classes =~= enabled_classes(*p));
    assert(seeds_ok(*p, seeds@));
    assert(forall|i: int| 0 <= i < pool@.len() ==> in_pool(*p, #[trigger] pool@[i]));
    let fill_count: usize = (p.length - count) as usize;
    let mut fills: Vec<char> = Vec::new();
    while fills.len() < fill_count
        invariant
            fills@.len() <= fill_count,
            pool@.len() > 0,
            forall|i: int| 0 <= i < pool@.len() ==> in_pool(*p, #[trigger] pool@[i]),
            forall|i: int| 0 <= i < fills@.len() ==> in_pool(*p, #[trigger] fills@[i]),
        decreases fill_count - fills@.len(),
    {
        let c = pick(pool.as_slice());
        fills.push(c);
    }
    let n: usize = p.length as usize;
    let mut order: Vec<usize> = Vec::new();
    while order.len() < n
        invariant
            order@.len() <= n,
            order@ == positions(order@.len()),
        decreases n - order@.len(),
    {
        order.push(order.len());
        assert(order@ =~= positions(order@.len()));
    }
    shuffle(&mut order);
    proof {
        lemma_permutation(order@, n as nat);
    }
    let mut buf: Vec<char> = Vec::new();
    buf.extend_from_slice(seeds.as_slice());
    buf.extend_from_slice(fills.as_slice());
    assert(buf@ =~= seeds@ + fills@);
    let s = arrange(&buf, &order);
    proof {
        lemma_draws_meet_policy(*p, seeds@, fills@, order@);
        assert(s@ == arranged(seeds@ + fills@, order@));
    }
    Ok(s)
}

/// The policy given by the command line's opt-out flags.
pub open spec fn policy_of(length: u8, no_upper: bool, no_lower: bool, no_number: bool, no_symbol: bool) -> PasswordPolicy {
    PasswordPolicy { length, upper: !no_upper, lower: !no_lower, number: !no_number, symbol: !no_symbol }
}

/// Generates a password for the command line's flags and estimates its
/// strength. Fails on an unmeetable policy, or when no strength estimate comes
/// back.
pub fn process_genpass(length: u8, no_upper: bool, no_lower: bool, no_number: bool, no_symbol: bool) -> (r: Result<GeneratedPassword, GenPassError>)
    ensures
        ({
            let p = policy_of(length, no_upper, no_lower, no_number, no_symbol);
            &&& (r is Ok || r == Err::<GeneratedPassword, GenPassError>(GenPassError::Strength)) <==> policy_ok(p)
            &&& r matches Ok(g) ==> drawn(p, g.password@) && meets_policy(p, g.password@) && g.score <= 4
            &&& r == Err::<GeneratedPassword, GenPassError>(GenPassError::NoClassEnabled) <==> class_count(p) == 0
            &&& r matches Err(GenPassError::TooShort { length: l, required }) ==> l == length && required as nat == class_count(p)
            &&& r is Err && !policy_ok(p) && class_count(p) > 0 ==> r matches Err(GenPassError::TooShort { .. })
        }),
{
    let policy = PasswordPolicy { length, upper: !no_upper, lower: !no_lower, number: !no_number, symbol: !no_symbol };
    let password = match generate_password(&policy) {
        Ok(s) => s,
        Err(e) => {
            return Err(e);
        },
    };
    match strength_score(password.as_str()) {
        Some(score) => Ok(GeneratedPassword { password, score }),
        None => Err(GenPassError::Strength),
    }
}

} // verus!
