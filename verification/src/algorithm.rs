//! The canonical host-key algorithm identifiers and the name resolver.

use vstd::prelude::*;

verus! {

/// A canonical SSH host-key algorithm identifier: the closed set of
/// algorithms the transport layer can be asked to accept.
#[derive(Clone, Copy, Debug, PartialEq, Eq, Structural)]
pub enum HostKeyAlgorithm {
    /// Ed25519 (`ssh-ed25519`).
    Ed25519,
    /// RSA with SHA-256 (`rsa-sha2-256`).
    RsaSha256,
    /// RSA with SHA-512 (`rsa-sha2-512`).
    RsaSha512,
    /// RSA with no specified hash, the legacy `ssh-rsa` form.
    RsaLegacy,
    /// ECDSA on curve NIST P-256 (`ecdsa-sha2-nistp256`).
    EcdsaNistP256,
    /// ECDSA on curve NIST P-384 (`ecdsa-sha2-nistp384`).
    EcdsaNistP384,
    /// ECDSA on curve NIST P-521 (`ecdsa-sha2-nistp521`).
    EcdsaNistP521,
}

/// The recognized names and aliases, and what each denotes.
///
/// Matching is case-sensitive and exact: no trimming, no case folding.
/// Only the Ed25519 and RSA families have a short alias; the ECDSA names
/// deliberately have none.
pub open spec fn spec_resolve_algorithm(name: Seq<char>) -> Option<HostKeyAlgorithm> {
    if name == "ssh-ed25519"@ || name == "ed25519"@ {
        Some(HostKeyAlgorithm::Ed25519)
    } else if name == "rsa-sha2-256"@ {
        Some(HostKeyAlgorithm::RsaSha256)
    } else if name == "rsa-sha2-512"@ {
        Some(HostKeyAlgorithm::RsaSha512)
    } else if name == "ssh-rsa"@ || name == "rsa"@ {
        Some(HostKeyAlgorithm::RsaLegacy)
    } else if name == "ecdsa-sha2-nistp256"@ {
        Some(HostKeyAlgorithm::EcdsaNistP256)
    } else if name == "ecdsa-sha2-nistp384"@ {
        Some(HostKeyAlgorithm::EcdsaNistP384)
    } else if name == "ecdsa-sha2-nistp521"@ {
        Some(HostKeyAlgorithm::EcdsaNistP521)
    } else {
        None
    }
}

/// Relies on str's `PartialEq`: two string slices are equal exactly when
/// their character sequences are equal.
#[verifier::external_body]
fn str_eq(a: &str, b: &str) -> (r: bool)
    ensures
        r == (a@ == b@),
{
    a == b
}

/// Map one free-text algorithm name to its canonical identifier, or to
/// `None` if the name is not recognized. Total: never fails, never panics.
pub fn resolve_algorithm(name: &str) -> (resolved: Option<HostKeyAlgorithm>)
    ensures
        resolved == spec_resolve_algorithm(name@),
{
    if str_eq(name, "ssh-ed25519") || str_eq(name, "ed25519") {
        Some(HostKeyAlgorithm::Ed25519)
    } else if str_eq(name, "rsa-sha2-256") {
        Some(HostKeyAlgorithm::RsaSha256)
    } else if str_eq(name, "rsa-sha2-512") {
        Some(HostKeyAlgorithm::RsaSha512)
    } else if str_eq(name, "ssh-rsa") || str_eq(name, "rsa") {
        Some(HostKeyAlgorithm::RsaLegacy)
    } else if str_eq(name, "ecdsa-sha2-nistp256") {
        Some(HostKeyAlgorithm::EcdsaNistP256)
    } else if str_eq(name, "ecdsa-sha2-nistp384") {
        Some(HostKeyAlgorithm::EcdsaNistP384)
    } else if str_eq(name, "ecdsa-sha2-nistp521") {
        Some(HostKeyAlgorithm::EcdsaNistP521)
    } else {
        None
    }
}

/// The canonical identifiers of the recognized names in `names`, in input
/// order: unrecognized names are dropped in place, duplicates are kept.
pub open spec fn spec_resolve_list(names: Seq<Seq<char>>) -> Seq<HostKeyAlgorithm>
    decreases names.len(),
{
    if names.len() == 0 {
        Seq::empty()
    } else {
        spec_resolve_list(names.drop_last()) + (match spec_resolve_algorithm(names.last()) {
            Some(algorithm) => seq![algorithm],
            None => Seq::empty(),
        })
    }
}

/// Resolve a whole preference list: map each name through
/// [`resolve_algorithm`], keeping input order and duplicates, and drop the
/// unrecognized names. Total: never fails, never panics.
pub fn resolve_list(names: &Vec<String>) -> (resolved: Vec<HostKeyAlgorithm>)
    ensures
        resolved@ == spec_resolve_list(names.deep_view()),
{
    let ghost all_names: Seq<Seq<char>> = names.deep_view();
    let mut resolved: Vec<HostKeyAlgorithm> = Vec::new();
    let mut i: usize = 0;
    while i < names.len()
        invariant
            i <= names.len(),
            all_names == names.deep_view(),
            resolved@ == spec_resolve_list(all_names.take(i as int)),
        decreases names.len() - i,
    {
        match resolve_algorithm(names[i].as_str()) {
            Some(algorithm) => resolved.push(algorithm),
            None => {},
        }
        i = i + 1;
        proof {
            assert(all_names.take(i as int).drop_last() =~= all_names.take(i - 1));
            assert(all_names.take(i as int).last() == all_names[i - 1]);
            assert(resolved@ =~= spec_resolve_list(all_names.take(i as int)));
        }
    }
    proof {
        assert(all_names.take(names.len() as int) =~= all_names);
    }
    resolved
}

/// Resolution has no hidden state: resolving the same algorithm-name list
/// twice yields identical output sequences.
pub proof fn lemma_resolution_deterministic(
    names: Seq<Seq<char>>,
    first: Seq<HostKeyAlgorithm>,
    second: Seq<HostKeyAlgorithm>,
)
    requires
        first == spec_resolve_list(names),
        second == spec_resolve_list(names),
    ensures
        first == second,
{
}

/// Resolving a concatenation resolves the parts independently and in order:
/// no name influences how another resolves, and no reordering happens.
pub proof fn lemma_resolve_list_append(left: Seq<Seq<char>>, right: Seq<Seq<char>>)
    ensures
        spec_resolve_list(left + right) == spec_resolve_list(left) + spec_resolve_list(right),
    decreases right.len(),
{
    if right.len() == 0 {
        assert(left + right =~= left);
        assert(spec_resolve_list(left) + Seq::<HostKeyAlgorithm>::empty() =~= spec_resolve_list(
            left,
        ));
    } else {
        lemma_resolve_list_append(left, right.drop_last());
        assert((left + right).drop_last() =~= left + right.drop_last());
        assert((left + right).last() == right.last());
        assert(spec_resolve_list(left + right) =~= spec_resolve_list(left) + spec_resolve_list(
            right,
        ));
    }
}

/// What a single name contributes: its canonical identifier if it is
/// recognized, and nothing at all if it is not.
pub proof fn lemma_resolve_list_singleton(name: Seq<char>)
    ensures
        spec_resolve_list(seq![name]) == (match spec_resolve_algorithm(name) {
            Some(algorithm) => seq![algorithm],
            None => Seq::<HostKeyAlgorithm>::empty(),
        }),
{
    assert(seq![name].drop_last() =~= Seq::<Seq<char>>::empty());
    assert(seq![name].last() == name);
    assert(spec_resolve_list(Seq::<Seq<char>>::empty()) == Seq::<HostKeyAlgorithm>::empty());
    match spec_resolve_algorithm(name) {
        Some(algorithm) => {
            assert(spec_resolve_list(seq![name]) =~= seq![algorithm]);
        },
        None => {
            assert(spec_resolve_list(seq![name]) =~= Seq::<HostKeyAlgorithm>::empty());
        },
    }
}

/// Order preservation: an unrecognized name is dropped in place, never
/// replaced or reordered — the names around it resolve exactly as they
/// would if it were not there.
pub proof fn lemma_unrecognized_dropped_in_place(
    before: Seq<Seq<char>>,
    name: Seq<char>,
    after: Seq<Seq<char>>,
)
    requires
        spec_resolve_algorithm(name) is None,
    ensures
        spec_resolve_list(before + seq![name] + after) == spec_resolve_list(before)
            + spec_resolve_list(after),
{
    lemma_resolve_list_append(before + seq![name], after);
    lemma_resolve_list_append(before, seq![name]);
    lemma_resolve_list_singleton(name);
    assert(spec_resolve_list(before) + Seq::<HostKeyAlgorithm>::empty() =~= spec_resolve_list(
        before,
    ));
}

/// Order preservation: a recognized name contributes exactly its canonical
/// identifier, exactly where it stood.
pub proof fn lemma_recognized_kept_in_place(
    before: Seq<Seq<char>>,
    name: Seq<char>,
    algorithm: HostKeyAlgorithm,
    after: Seq<Seq<char>>,
)
    requires
        spec_resolve_algorithm(name) == Some(algorithm),
    ensures
        spec_resolve_list(before + seq![name] + after) == spec_resolve_list(before)
            + seq![algorithm] + spec_resolve_list(after),
{
    lemma_resolve_list_append(before + seq![name], after);
    lemma_resolve_list_append(before, seq![name]);
    lemma_resolve_list_singleton(name);
}

} // verus!
