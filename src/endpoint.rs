use vstd::prelude::*;

verus! {

/// Decimal digits of `n`, most significant first, without leading zeros.
pub open spec fn decimal(n: nat) -> Seq<char>
    decreases n,
{
    if n < 10 {
        seq![digit_char(n)]
    } else {
        decimal(n / 10) + seq![digit_char(n % 10)]
    }
}

/// The character of a single decimal digit.
pub open spec fn digit_char(d: nat) -> char {
    if d == 0 { '0' }
    else if d == 1 { '1' }
    else if d == 2 { '2' }
    else if d == 3 { '3' }
    else if d == 4 { '4' }
    else if d == 5 { '5' }
    else if d == 6 { '6' }
    else if d == 7 { '7' }
    else if d == 8 { '8' }
    else { '9' }
}

fn digit_str(d: u16) -> (r: &'static str)
    requires
        d < 10,
    ensures
        r@ == seq![digit_char(d as nat)],
{
    proof {
        reveal_strlit("0");
        reveal_strlit("1");
        reveal_strlit("2");
        reveal_strlit("3");
        reveal_strlit("4");
        reveal_strlit("5");
        reveal_strlit("6");
        reveal_strlit("7");
        reveal_strlit("8");
        reveal_strlit("9");
    }
    if d == 0 { "0" }
    else if d == 1 { "1" }
    else if d == 2 { "2" }
    else if d == 3 { "3" }
    else if d == 4 { "4" }
    else if d == 5 { "5" }
    else if d == 6 { "6" }
    else if d == 7 { "7" }
    else if d == 8 { "8" }
    else { "9" }
}

/// Appends the decimal form of `n` to `out`.
pub fn push_decimal(out: &mut String, n: u16)
    ensures
        final(out)@ == old(out)@ + decimal(n as nat),
    decreases n,
{
    if n < 10 {
        out.append(digit_str(n));
    } else {
        push_decimal(out, n / 10);
        out.append(digit_str(n % 10));
    }
    assert(final(out)@ =~= old(out)@ + decimal(n as nat));
}

/// The host every backend listens on.
pub open spec fn host() -> Seq<char> {
    seq!['l', 'o', 'c', 'a', 'l', 'h', 'o', 's', 't']
}

/// The network address a backend listens on: the local host and a TCP port.
#[derive(Clone, Copy, Debug, PartialEq, Eq, Structural)]
pub struct Endpoint {
    pub port: u16,
}

impl Endpoint {
    /// `host:port`, the port in decimal.
    pub open spec fn address_spec(self) -> Seq<char> {
        host() + seq![':'] + decimal(self.port as nat)
    }

    /// The host part of the address.
    pub fn host_name(&self) -> (r: String)
        ensures
            r@ == host(),
    {
        let r = String::from_str("localhost");
        proof {
            reveal_strlit("localhost");
        }
        assert(r@ =~= host());
        r
    }

    /// The port in decimal.
    pub fn port_text(&self) -> (r: String)
        ensures
            r@ == decimal(self.port as nat),
    {
        let mut r = String::new();
        push_decimal(&mut r, self.port);
        assert(r@ =~= decimal(self.port as nat));
        r
    }

    pub fn address(&self) -> (r: String)
        ensures
            r@ == self.address_spec(),
    {
        let mut r = String::from_str("localhost:");
        proof {
            reveal_strlit("localhost:");
        }
        assert(r@ =~= host() + seq![':']);
        push_decimal(&mut r, self.port);
        r
    }
}

/// The arguments the backend executable is launched with: `api --port <port>`.
pub open spec fn launch_args_spec(port: u16) -> Seq<Seq<char>> {
    seq![seq!['a', 'p', 'i'], seq!['-', '-', 'p', 'o', 'r', 't'], decimal(port as nat)]
}

pub fn launch_args(port: u16) -> (r: Vec<String>)
    ensures
        r@.len() == 3,
        forall|i: int| 0 <= i < 3 ==> #[trigger] r@[i]@ == launch_args_spec(port)[i],
{
    let api = String::from_str("api");
    let flag = String::from_str("--port");
    proof {
        reveal_strlit("api");
        reveal_strlit("--port");
    }
    let mut value = String::new();
    push_decimal(&mut value, port);
    assert(api@ =~= seq!['a', 'p', 'i']);
    assert(flag@ =~= seq!['-', '-', 'p', 'o', 'r', 't']);
    assert(value@ =~= decimal(port as nat));
    let r = vec![api, flag, value];
    r
}

} // verus!
