use vstd::prelude::*;

verus! {

/// The character for a decimal digit.
pub open spec fn digit_char(d: nat) -> char {
    if d == 0 {
        '0'
    } else if d == 1 {
        '1'
    } else if d == 2 {
        '2'
    } else if d == 3 {
        '3'
    } else if d == 4 {
        '4'
    } else if d == 5 {
        '5'
    } else if d == 6 {
        '6'
    } else if d == 7 {
        '7'
    } else if d == 8 {
        '8'
    } else {
        '9'
    }
}

pub open spec fn is_digit(c: char) -> bool {
    '0' <= c && c <= '9'
}

/// The shortest decimal rendering of `n`, most significant digit first.
pub open spec fn decimal(n: nat) -> Seq<char>
    decreases n,
{
    if n < 10 {
        seq![digit_char(n)]
    } else {
        decimal(n / 10).push(digit_char(n % 10))
    }
}

/// The link-local host name that a controller of team `t` announces.
pub open spec fn hostname_of(t: nat) -> Seq<char> {
    "roborio-"@ + decimal(t) + "-FRC.local"@
}

/// The controller's address on the team's own network: `10.<t / 100>.<t % 100>.2`.
pub open spec fn numeric_of(t: nat) -> Seq<char> {
    "10."@ + decimal(t / 100) + "."@ + decimal(t % 100) + ".2"@
}

/// The controller's address over a direct USB link.
pub open spec fn fallback_address() -> Seq<char> {
    "172.22.11.2"@
}

/// The candidates for team `t`, in order of preference.
pub open spec fn team_candidates(t: nat) -> Seq<Seq<char>> {
    seq![hostname_of(t), numeric_of(t), fallback_address()]
}

/// The candidates to probe: the override alone where one is given.
pub open spec fn candidates_for(t: nat, fixed: Option<Seq<char>>) -> Seq<Seq<char>> {
    match fixed {
        Some(a) => seq![a],
        None => team_candidates(t),
    }
}

pub open spec fn opt_view(o: Option<String>) -> Option<Seq<char>> {
    match o {
        Some(s) => Some(s@),
        None => None,
    }
}

proof fn lemma_digit_char_is_digit(d: nat)
    requires
        d < 10,
    ensures
        is_digit(digit_char(d)),
        forall|e: nat| e < 10 && digit_char(e) == digit_char(d) ==> e == d,
{
}

/// Every character of a decimal rendering is a digit, and there is at least one.
pub proof fn lemma_decimal_digits(n: nat)
    ensures
        decimal(n).len() >= 1,
        n >= 10 ==> decimal(n).len() >= 2,
        forall|i: int| 0 <= i < decimal(n).len() ==> is_digit(#[trigger] decimal(n)[i]),
    decreases n,
{
    lemma_digit_char_is_digit(n % 10);
    if n >= 10 {
        lemma_decimal_digits(n / 10);
        assert forall|i: int| 0 <= i < decimal(n).len() implies is_digit(#[trigger] decimal(n)[i]) by {
            if i < decimal(n / 10).len() {
                assert(decimal(n)[i] == decimal(n / 10)[i]);
            }
        }
    }
}

/// Distinct numbers have distinct decimal renderings.
pub proof fn lemma_decimal_injective(a: nat, b: nat)
    requires
        decimal(a) == decimal(b),
    ensures
        a == b,
    decreases a,
{
    lemma_decimal_digits(a / 10);
    lemma_decimal_digits(b / 10);
    lemma_digit_char_is_digit(a % 10);
    lemma_digit_char_is_digit(b % 10);
    if a < 10 && b < 10 {
        assert(decimal(a)[0] == digit_char(a));
        assert(decimal(b)[0] == digit_char(b));
    } else if a < 10 {
        assert(decimal(b).len() >= 2);
    } else if b < 10 {
        assert(decimal(a).len() >= 2);
    } else {
        let la = decimal(a).len() - 1;
        assert(decimal(a)[la] == digit_char(a % 10));
        assert(decimal(b)[la] == digit_char(b % 10));
        assert(decimal(a / 10) =~= decimal(a).drop_last());
        assert(decimal(b / 10) =~= decimal(b).drop_last());
        lemma_decimal_injective(a / 10, b / 10);
    }
}

proof fn lemma_dot_separated_injective(a: Seq<char>, b: Seq<char>, c: Seq<char>, d: Seq<char>)
    requires
        forall|i: int| 0 <= i < a.len() ==> is_digit(#[trigger] a[i]),
        forall|i: int| 0 <= i < c.len() ==> is_digit(#[trigger] c[i]),
        a + "."@ + b == c + "."@ + d,
    ensures
        a == c,
        b == d,
{
    reveal_strlit(".");
    let l = a + "."@ + b;
    let r = c + "."@ + d;
    if a.len() < c.len() {
        assert(l[a.len() as int] == '.');
        assert(r[a.len() as int] == c[a.len() as int]);
    } else if c.len() < a.len() {
        assert(r[c.len() as int] == '.');
        assert(l[c.len() as int] == a[c.len() as int]);
    }
    assert(a =~= l.subrange(0, a.len() as int));
    assert(c =~= r.subrange(0, c.len() as int));
    assert(b =~= l.subrange(a.len() as int + 1, l.len() as int));
    assert(d =~= r.subrange(c.len() as int + 1, r.len() as int));
}

/// The host-name form and the numeric form each determine the team:
/// two different teams never share a candidate at either of these positions.
/// (The third candidate, the direct-link address, is the same for every team.)
pub proof fn lemma_team_candidates_distinct(t1: nat, t2: nat)
    requires
        t1 != t2,
    ensures
        team_candidates(t1)[0] != team_candidates(t2)[0],
        team_candidates(t1)[1] != team_candidates(t2)[1],
{
    if hostname_of(t1) == hostname_of(t2) {
        let p = "roborio-"@;
        let h1 = hostname_of(t1);
        let h2 = hostname_of(t2);
        let s = "-FRC.local"@;
        assert(h1 =~= p + decimal(t1) + s);
        assert(h2 =~= p + decimal(t2) + s);
        assert(decimal(t1).len() == decimal(t2).len());
        assert(decimal(t1) =~= h1.subrange(p.len() as int, p.len() + decimal(t1).len() as int));
        assert(decimal(t2) =~= h2.subrange(p.len() as int, p.len() + decimal(t2).len() as int));
        lemma_decimal_injective(t1, t2);
    }
    if numeric_of(t1) == numeric_of(t2) {
        let p = "10."@;
        let s = ".2"@;
        let n1 = numeric_of(t1);
        let n2 = numeric_of(t2);
        let m1 = decimal(t1 / 100) + "."@ + decimal(t1 % 100);
        let m2 = decimal(t2 / 100) + "."@ + decimal(t2 % 100);
        assert(n1 =~= p + m1 + s);
        assert(n2 =~= p + m2 + s);
        assert(m1.len() == m2.len());
        assert(m1 =~= n1.subrange(p.len() as int, p.len() + m1.len() as int));
        assert(m2 =~= n2.subrange(p.len() as int, p.len() + m2.len() as int));
        lemma_decimal_digits(t1 / 100);
        lemma_decimal_digits(t2 / 100);
        lemma_dot_separated_injective(
            decimal(t1 / 100),
            decimal(t1 % 100),
            decimal(t2 / 100),
            decimal(t2 % 100),
        );
        lemma_decimal_injective(t1 / 100, t2 / 100);
        lemma_decimal_injective(t1 % 100, t2 % 100);
        assert(t1 == 100 * (t1 / 100) + t1 % 100);
        assert(t2 == 100 * (t2 / 100) + t2 % 100);
    }
}

fn digit_str(d: usize) -> (r: &'static str)
    requires
        d < 10,
    ensures
        r@ == seq![digit_char(d as nat)],
{
    proof {
        reveal_strlit("0");
        reveal_strlit("1");
        reveal_strlit("2");
        reveal_strlit("3");
        reveal_strlit("4");
        reveal_strlit("5");
        reveal_strlit("6");
        reveal_strlit("7");
        reveal_strlit("8");
        reveal_strlit("9");
    }
    if d == 0 {
        "0"
    } else if d == 1 {
        "1"
    } else if d == 2 {
        "2"
    } else if d == 3 {
        "3"
    } else if d == 4 {
        "4"
    } else if d == 5 {
        "5"
    } else if d == 6 {
        "6"
    } else if d == 7 {
        "7"
    } else if d == 8 {
        "8"
    } else {
        "9"
    }
}

/// Renders `n` in decimal.
pub fn to_decimal(n: usize) -> (r: String)
    ensures
        r@ == decimal(n as nat),
    decreases n,
{
    if n < 10 {
        String::from_str(digit_str(n))
    } else {
        let mut s = to_decimal(n / 10);
        s.append(digit_str(n % 10));
        s
    }
}

/// The three addresses at which a controller of team `team` may answer,
/// in order of preference.
pub fn make_ssh_addresses(team: usize) -> (r: Vec<String>)
    ensures
        r.deep_view() == team_candidates(team as nat),
        r.len() == 3,
{
    let mut host = String::from_str("roborio-");
    host.append(to_decimal(team).as_str());
    host.append("-FRC.local");

    let mut numeric = String::from_str("10.");
    numeric.append(to_decimal(team / 100).as_str());
    numeric.append(".");
    numeric.append(to_decimal(team % 100).as_str());
    numeric.append(".2");

    let fallback = String::from_str("172.22.11.2");

    let r = vec![host, numeric, fallback];
    assert(r.deep_view() =~= team_candidates(team as nat));
    r
}

/// The ordered candidates to probe: the operator's fixed address alone where
/// one is given, else the three team-derived addresses.
pub fn resolve(team: usize, fixed: Option<String>) -> (r: Vec<String>)
    ensures
        r.deep_view() == candidates_for(team as nat, opt_view(fixed)),
        fixed.is_some() ==> r.len() == 1 && r[0]@ == fixed->0@,
        fixed.is_none() ==> r.len() == 3,
{
    match fixed {
        Some(a) => {
            let r = vec![a];
            assert(r.deep_view() =~= seq![a@]);
            r
        },
        None => make_ssh_addresses(team),
    }
}

} // verus!
