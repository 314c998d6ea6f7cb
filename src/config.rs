//! The numeric configuration of the sealing network, its validation, and the
//! macro-definition header derived from it.

use vstd::prelude::*;
use vstd::arithmetic::div_mod::lemma_div_denominator;
use vstd::string::*;

verus! {

/// Whether an auxiliary tree is built alongside sealing.
#[derive(Clone, Copy, Debug, PartialEq, Eq, Structural)]
pub enum TreeOptions {
    Disabled,
    Enabled { rows_to_discard: usize },
}

impl TreeOptions {
    /// Whether a tree is built at all.
    pub fn tree_enabled(&self) -> (r: bool)
        ensures
            r == (*self is Enabled),
    {
        match self {
            TreeOptions::Enabled { .. } => true,
            TreeOptions::Disabled => false,
        }
    }
}

/// The numeric parameters of the sealing network.
#[derive(Clone, Copy, Debug, PartialEq, Eq, Structural)]
pub struct Config {
    pub num_nodes_window: usize,
    pub k: u32,
    pub degree_expander: usize,
    pub degree_butterfly: usize,
    pub num_expander_layers: usize,
    pub num_butterfly_layers: usize,
}

/// Why a configuration was refused, in the order in which the checks run.
#[derive(Clone, Copy, Debug, PartialEq, Eq, Structural)]
pub enum ConfigError {
    /// The window does not hold more nodes than `k`.
    WindowNotAboveK,
    /// The window size is not a power of two.
    WindowNotPowerOfTwo,
    /// `k` is not a power of two.
    KNotPowerOfTwo,
    /// `log2(num_nodes_window / k)` is not a multiple of 8.
    BitSizeNotByteAligned,
    /// The butterfly degree is not a power of two.
    ButterflyDegreeNotPowerOfTwo,
}

/// `Some(e)` when `n == 2^e`, `None` when `n` is no power of two.
pub open spec fn exact_log2(n: nat) -> Option<nat>
    decreases n,
{
    if n == 1 {
        Some(0)
    } else if n == 0 || n % 2 == 1 {
        None
    } else {
        match exact_log2(n / 2) {
            Some(e) => Some(e + 1),
            None => None,
        }
    }
}

pub open spec fn is_power_of_two(n: nat) -> bool {
    exact_log2(n) is Some
}

/// The base-two logarithm of a power of two.
pub open spec fn log2(n: nat) -> nat {
    match exact_log2(n) {
        Some(e) => e,
        None => 0,
    }
}

/// The derived bit size: for a window and a `k` that are powers of two, with
/// the window the larger, this is `log2(num_nodes_window / k)`.
pub open spec fn bit_size(c: Config) -> nat {
    (log2(c.num_nodes_window as nat) - log2(c.k as nat)) as nat
}

/// The first check that `c` fails, or `None` when it passes them all.
pub open spec fn config_error(c: Config) -> Option<ConfigError> {
    if c.num_nodes_window <= c.k {
        Some(ConfigError::WindowNotAboveK)
    } else if !is_power_of_two(c.num_nodes_window as nat) {
        Some(ConfigError::WindowNotPowerOfTwo)
    } else if !is_power_of_two(c.k as nat) {
        Some(ConfigError::KNotPowerOfTwo)
    } else if bit_size(c) % 8 != 0 {
        Some(ConfigError::BitSizeNotByteAligned)
    } else if !is_power_of_two(c.degree_butterfly as nat) {
        Some(ConfigError::ButterflyDegreeNotPowerOfTwo)
    } else {
        None
    }
}

pub open spec fn digit_char(d: nat) -> char {
    if d == 0 {
        '0'
    } else if d == 1 {
        '1'
    } else if d == 2 {
        '2'
    } else if d == 3 {
        '3'
    } else if d == 4 {
        '4'
    } else if d == 5 {
        '5'
    } else if d == 6 {
        '6'
    } else if d == 7 {
        '7'
    } else if d == 8 {
        '8'
    } else {
        '9'
    }
}

/// The decimal digits of `n`, most significant first, without leading zeros.
pub open spec fn decimal(n: nat) -> Seq<char>
    decreases n,
{
    if n < 10 {
        seq![digit_char(n)]
    } else {
        decimal(n / 10) + seq![digit_char(n % 10)]
    }
}

/// One line `#define NAME (value)`.
pub open spec fn define_line(name: Seq<char>, value: nat) -> Seq<char> {
    "#define "@ + name + " ("@ + decimal(value) + ")\n"@
}

/// The macro-definition header of a valid configuration.
pub open spec fn header_text(c: Config) -> Seq<char> {
    define_line("N"@, c.num_nodes_window as nat) + define_line("K"@, c.k as nat) + define_line(
        "LOG2_K"@,
        log2(c.k as nat),
    ) + define_line("DEGREE_EXPANDER"@, c.degree_expander as nat) + define_line(
        "DEGREE_BUTTERFLY"@,
        c.degree_butterfly as nat,
    ) + define_line("LOG2_DEGREE_BUTTERFLY"@, log2(c.degree_butterfly as nat)) + define_line(
        "NUM_EXPANDER_LAYERS"@,
        c.num_expander_layers as nat,
    ) + define_line("NUM_BUTTERFLY_LAYERS"@, c.num_butterfly_layers as nat) + define_line(
        "BIT_SIZE"@,
        bit_size(c),
    )
}

/// What `config` returns for `c`.
pub open spec fn config_result(c: Config) -> Result<Seq<char>, ConfigError> {
    match config_error(c) {
        Some(e) => Err(e),
        None => Ok(header_text(c)),
    }
}

spec fn shifted(o: Option<nat>, e: nat) -> Option<nat> {
    match o {
        Some(x) => Some(x + e),
        None => None,
    }
}

/// The exact base-two logarithm of `n`, or `None` when `n` is no power of two.
pub fn exact_log2_of(n: usize) -> (r: Option<usize>)
    ensures
        match exact_log2(n as nat) {
            Some(e) => r matches Some(v) && v as nat == e,
            None => r is None,
        },
{
    if n == 0 {
        return None;
    }
    let mut m: usize = n;
    let mut e: usize = 0;
    while m % 2 == 0
        invariant
            m > 0,
            e + m <= n,
            exact_log2(n as nat) == shifted(exact_log2(m as nat), e as nat),
        decreases m,
    {
        assert(exact_log2(m as nat) == shifted(exact_log2((m / 2) as nat), 1));
        m = m / 2;
        e = e + 1;
    }
    if m == 1 {
        Some(e)
    } else {
        None
    }
}

fn digit_text(d: usize) -> (r: &'static str)
    requires
        d < 10,
    ensures
        r@ == seq![digit_char(d as nat)],
{
    if d == 0 {
        proof { reveal_strlit("0"); }
        "0"
    } else if d == 1 {
        proof { reveal_strlit("1"); }
        "1"
    } else if d == 2 {
        proof { reveal_strlit("2"); }
        "2"
    } else if d == 3 {
        proof { reveal_strlit("3"); }
        "3"
    } else if d == 4 {
        proof { reveal_strlit("4"); }
        "4"
    } else if d == 5 {
        proof { reveal_strlit("5"); }
        "5"
    } else if d == 6 {
        proof { reveal_strlit("6"); }
        "6"
    } else if d == 7 {
        proof { reveal_strlit("7"); }
        "7"
    } else if d == 8 {
        proof { reveal_strlit("8"); }
        "8"
    } else {
        proof { reveal_strlit("9"); }
        "9"
    }
}

/// The decimal text of `n`.
pub fn decimal_text(n: usize) -> (r: String)
    ensures
        r@ == decimal(n as nat),
    decreases n,
{
    let mut s = if n >= 10 {
        decimal_text(n / 10)
    } else {
        String::new()
    };
    s.append(digit_text(n % 10));
    proof {
        if n < 10 {
            assert(s@ =~= decimal(n as nat));
        }
    }
    s
}

fn push_define(s: &mut String, name: &str, value: usize)
    ensures
        final(s)@ == old(s)@ + define_line(name@, value as nat),
{
    s.append("#define ");
    s.append(name);
    s.append(" (");
    let digits = decimal_text(value);
    s.append(digits.as_str());
    s.append(")\n");
    assert(final(s)@ =~= old(s)@ + define_line(name@, value as nat));
}

/// Validates `conf` and, when it passes, returns its macro-definition header.
pub fn config(conf: Config) -> (r: Result<String, ConfigError>)
    ensures
        match config_result(conf) {
            Ok(text) => r matches Ok(s) && s@ == text,
            Err(e) => r == Err::<String, ConfigError>(e),
        },
{
    let n = conf.num_nodes_window;
    let k = conf.k as usize;
    if n <= k {
        return Err(ConfigError::WindowNotAboveK);
    }
    let log_n = match exact_log2_of(n) {
        Some(e) => e,
        None => return Err(ConfigError::WindowNotPowerOfTwo),
    };
    let log_k = match exact_log2_of(k) {
        Some(e) => e,
        None => return Err(ConfigError::KNotPowerOfTwo),
    };
    proof { lemma_log2_monotone(k as nat, n as nat); }
    let bits = log_n - log_k;
    if bits % 8 != 0 {
        return Err(ConfigError::BitSizeNotByteAligned);
    }
    let log_butterfly = match exact_log2_of(conf.degree_butterfly) {
        Some(e) => e,
        None => return Err(ConfigError::ButterflyDegreeNotPowerOfTwo),
    };
    let mut s = String::new();
    push_define(&mut s, "N", n);
    push_define(&mut s, "K", k);
    push_define(&mut s, "LOG2_K", log_k);
    push_define(&mut s, "DEGREE_EXPANDER", conf.degree_expander);
    push_define(&mut s, "DEGREE_BUTTERFLY", conf.degree_butterfly);
    push_define(&mut s, "LOG2_DEGREE_BUTTERFLY", log_butterfly);
    push_define(&mut s, "NUM_EXPANDER_LAYERS", conf.num_expander_layers);
    push_define(&mut s, "NUM_BUTTERFLY_LAYERS", conf.num_butterfly_layers);
    push_define(&mut s, "BIT_SIZE", bits);
    assert(s@ =~= header_text(conf));
    Ok(s)
}

/// Of two powers of two, the smaller has the smaller logarithm.
pub proof fn lemma_log2_monotone(a: nat, b: nat)
    requires
        is_power_of_two(a),
        is_power_of_two(b),
        a <= b,
    ensures
        log2(a) <= log2(b),
    decreases b,
{
    if a != 1 && a != b {
        assert(b != 1);
        lemma_log2_monotone(a / 2, b / 2);
    }
}

proof fn lemma_log2_of_ratio(n: nat, k: nat)
    requires
        is_power_of_two(n),
        is_power_of_two(k),
        k <= n,
    ensures
        exact_log2(n / k) == Some((log2(n) - log2(k)) as nat),
    decreases k,
{
    lemma_log2_monotone(k, n);
    if k == 1 {
        assert(n / 1 == n);
    } else {
        assert(n != 1);
        lemma_log2_of_ratio(n / 2, k / 2);
        lemma_div_denominator(n as int, 2, (k / 2) as int);
        assert(n / k == (n / 2) / (k / 2));
    }
}

/// For a valid window and `k`, the derived bit size is `log2(num_nodes_window / k)`.
pub proof fn lemma_bit_size_is_log2_of_ratio(c: Config)
    requires
        is_power_of_two(c.num_nodes_window as nat),
        is_power_of_two(c.k as nat),
        c.k < c.num_nodes_window,
    ensures
        exact_log2((c.num_nodes_window / (c.k as usize)) as nat) == Some(bit_size(c)),
{
    lemma_log2_of_ratio(c.num_nodes_window as nat, c.k as nat);
}

} // verus!
