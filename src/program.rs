//! Assembly of the program text that every device compiles: the header of a
//! validated configuration, the scalar-field arithmetic, and the fixed kernel
//! library, joined by newlines.

use crate::config::{bit_size, config, config_result, is_power_of_two, Config, ConfigError};
use vstd::prelude::*;

verus! {

/// The fixed library fragments, in the order in which the program holds them.
pub struct KernelLibrary {
    pub hash: String,
    pub common: String,
    pub mask: String,
    pub expander: String,
    pub butterfly: String,
    pub combine: String,
}

pub open spec fn library_parts(l: KernelLibrary) -> Seq<Seq<char>> {
    seq![l.hash@, l.common@, l.mask@, l.expander@, l.butterfly@, l.combine@]
}

/// The parts, each after the one before and `sep` between two of them.
pub open spec fn joined(parts: Seq<Seq<char>>, sep: Seq<char>) -> Seq<char>
    decreases parts.len(),
{
    if parts.len() == 0 {
        Seq::empty()
    } else if parts.len() == 1 {
        parts[0]
    } else {
        joined(parts.drop_last(), sep) + sep + parts.last()
    }
}

/// The text that `ff_cl_gen::field` generates for the BLS12-381 scalar field
/// under the given name.
pub uninterp spec fn fr_field_code(name: Seq<char>) -> Seq<char>;

/// The program for a header, a field definition and a kernel library.
pub open spec fn program_text(header: Seq<char>, field: Seq<char>, l: KernelLibrary) -> Seq<char> {
    joined(seq![header, field] + library_parts(l), "\n"@)
}

/// What `generate_nse_program` returns for `c` and `l`.
pub open spec fn program_result(c: Config, l: KernelLibrary) -> Result<Seq<char>, ConfigError> {
    match config_result(c) {
        Ok(header) => Ok(program_text(header, fr_field_code("Fr"@), l)),
        Err(e) => Err(e),
    }
}

/// Relies on `itertools::join`: the first item, then `sep` and the next item
/// for each further one; empty for no items.
#[verifier::external_body]
fn join_parts(parts: &Vec<String>, sep: &str) -> (r: String)
    ensures
        r@ == joined(parts@.map_values(|p: String| p@), sep@),
{
    itertools::join(parts, sep)
}

/// Relies on `ff_cl_gen::field` for `paired::bls12_381::Fr`: the arithmetic
/// definitions of the scalar field, a function of the name alone.
#[verifier::external_body]
fn fr_field(name: &str) -> (r: String)
    ensures
        r@ == fr_field_code(name@),
{
    ff_cl_gen::field::<paired::bls12_381::Fr>(name)
}

/// Joins a header, a field definition and the kernel library with newlines.
pub fn join_program(header: String, field: String, library: &KernelLibrary) -> (r: String)
    ensures
        r@ == program_text(header@, field@, *library),
{
    let ghost h = header@;
    let ghost f = field@;
    let mut parts: Vec<String> = Vec::new();
    parts.push(header);
    parts.push(field);
    parts.push(library.hash.clone());
    parts.push(library.common.clone());
    parts.push(library.mask.clone());
    parts.push(library.expander.clone());
    parts.push(library.butterfly.clone());
    parts.push(library.combine.clone());
    let sep = "\n";
    let r = join_parts(&parts, sep);
    assert(parts@.map_values(|p: String| p@) =~= seq![h, f] + library_parts(*library));
    r
}

/// Validates `conf` and, when it passes, assembles the program text: the
/// header, the field arithmetic, then the kernel library. Validation comes
/// first, so an invalid configuration costs no further work.
pub fn generate_nse_program(conf: Config, library: &KernelLibrary) -> (r: Result<String, ConfigError>)
    ensures
        match program_result(conf, *library) {
            Ok(text) => r matches Ok(s) && s@ == text,
            Err(e) => r == Err::<String, ConfigError>(e),
        },
{
    match config(conf) {
        Err(e) => Err(e),
        Ok(header) => {
            let field = fr_field("Fr");
            Ok(join_program(header, field, library))
        },
    }
}

/// The same configuration and library always give the same program text.
pub proof fn lemma_program_deterministic(c1: Config, c2: Config, l1: KernelLibrary, l2: KernelLibrary)
    requires
        c1 == c2,
        library_parts(l1) == library_parts(l2),
    ensures
        program_result(c1, l1) == program_result(c2, l2),
{
}

/// A configuration whose `k` or window size is no power of two, or whose
/// derived bit size is not a multiple of 8, is refused: no header and no
/// program text is made, so a pool is never built on it.
pub proof fn lemma_invalid_config_refused(c: Config, l: KernelLibrary)
    requires
        !is_power_of_two(c.k as nat) || !is_power_of_two(c.num_nodes_window as nat)
            || bit_size(c) % 8 != 0,
    ensures
        config_result(c) is Err,
        program_result(c, l) is Err,
{
}

} // verus!
