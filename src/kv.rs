//! Commands, consistency levels and the key encoding shared by driver and service.

use vstd::prelude::*;

verus! {

/// The guarantee requested for an operation.
#[derive(Clone, Copy, Debug, PartialEq, Eq, Structural)]
pub enum ConsistencyLevel {
    /// Executed immediately against the local replica.
    Local,
    /// Executed only by the current leader of the replication group.
    Leader,
    /// Reflects every write committed before the operation arrived.
    Linearizable,
}

/// The ASCII digit for `d` (`d < 10`).
pub open spec fn digit_char(d: nat) -> char {
    ((d + 48) as u8) as char
}

/// The decimal representation of `n`, without leading zeros.
pub open spec fn decimal(n: nat) -> Seq<char>
    decreases n,
{
    if n < 10 {
        seq![digit_char(n)]
    } else {
        decimal(n / 10).push(digit_char(n % 10))
    }
}

fn digit_str(d: u64) -> (r: &'static str)
    requires
        d < 10,
    ensures
        r@ == seq![digit_char(d as nat)],
{
    proof {
        reveal_strlit("0");
        reveal_strlit("1");
        reveal_strlit("2");
        reveal_strlit("3");
        reveal_strlit("4");
        reveal_strlit("5");
        reveal_strlit("6");
        reveal_strlit("7");
        reveal_strlit("8");
        reveal_strlit("9");
    }
    if d == 0 {
        "0"
    } else if d == 1 {
        "1"
    } else if d == 2 {
        "2"
    } else if d == 3 {
        "3"
    } else if d == 4 {
        "4"
    } else if d == 5 {
        "5"
    } else if d == 6 {
        "6"
    } else if d == 7 {
        "7"
    } else if d == 8 {
        "8"
    } else {
        "9"
    }
}

/// The decimal text of `n`; the driver uses it as both key and value of a request.
pub fn decimal_string(n: u64) -> (r: String)
    ensures
        r@ == decimal(n as nat),
    decreases n,
{
    if n < 10 {
        String::from_str(digit_str(n))
    } else {
        let mut s = decimal_string(n / 10);
        s.append(digit_str(n % 10));
        s
    }
}

/// The read consistency named by a configuration value: `"leader"` and
/// `"linearizable"` name their levels, anything else means `Local`.
pub open spec fn read_level_of(name: Seq<char>) -> ConsistencyLevel {
    if name == "leader"@ {
        ConsistencyLevel::Leader
    } else if name == "linearizable"@ {
        ConsistencyLevel::Linearizable
    } else {
        ConsistencyLevel::Local
    }
}

/// True iff the two strings hold the same characters.
fn same_text(a: &str, b: &str) -> (r: bool)
    ensures
        r == (a@ == b@),
{
    let n = a.unicode_len();
    if n != b.unicode_len() {
        return false;
    }
    let mut i: usize = 0;
    while i < n
        invariant
            n == a@.len(),
            n == b@.len(),
            i <= n,
            forall|j: int| 0 <= j < i ==> a@[j] == b@[j],
        decreases n - i,
    {
        if a.get_char(i) != b.get_char(i) {
            return false;
        }
        i = i + 1;
    }
    assert(a@ =~= b@);
    true
}

/// Parses the configured read consistency.
pub fn parse_read_consistency(name: &str) -> (r: ConsistencyLevel)
    ensures
        r == read_level_of(name@),
{
    if same_text(name, "leader") {
        ConsistencyLevel::Leader
    } else if same_text(name, "linearizable") {
        ConsistencyLevel::Linearizable
    } else {
        ConsistencyLevel::Local
    }
}

} // verus!
