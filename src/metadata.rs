//! Fungible-token metadata, carried as plain values.

use vstd::prelude::*;
use vstd::string::*;

verus! {

/// Version tag that valid metadata carries.
pub const FT_METADATA_SPEC: &'static str = "ft-1.0.0";

/// Length in bytes of a reference hash.
pub const REFERENCE_HASH_LEN: usize = 32;

/// Descriptive record of a fungible token.
#[derive(Debug)]
pub struct TokenMetadata {
    pub spec: String,
    pub name: String,
    pub symbol: String,
    pub icon: Option<String>,
    pub reference: Option<String>,
    pub reference_hash: Option<Vec<u8>>,
    pub decimals: u8,
}

/// Mathematical value of a [`TokenMetadata`].
pub struct TokenMetadataView {
    pub spec: Seq<char>,
    pub name: Seq<char>,
    pub symbol: Seq<char>,
    pub icon: Option<Seq<char>>,
    pub reference: Option<Seq<char>>,
    pub reference_hash: Option<Seq<u8>>,
    pub decimals: u8,
}

pub open spec fn text_view(s: Option<String>) -> Option<Seq<char>> {
    match s {
        Some(t) => Some(t@),
        None => None,
    }
}

pub open spec fn bytes_view(b: Option<Vec<u8>>) -> Option<Seq<u8>> {
    match b {
        Some(v) => Some(v@),
        None => None,
    }
}

impl View for TokenMetadata {
    type V = TokenMetadataView;

    open spec fn view(&self) -> TokenMetadataView {
        TokenMetadataView {
            spec: self.spec@,
            name: self.name@,
            symbol: self.symbol@,
            icon: text_view(self.icon),
            reference: text_view(self.reference),
            reference_hash: bytes_view(self.reference_hash),
            decimals: self.decimals,
        }
    }
}

/// Metadata is well formed: it names the supported version, and carries a
/// reference exactly when it carries a hash of it, of the right length.
pub open spec fn metadata_valid(m: TokenMetadataView) -> bool {
    &&& m.spec == FT_METADATA_SPEC@
    &&& m.reference.is_some() == m.reference_hash.is_some()
    &&& (m.reference_hash matches Some(h) ==> h.len() == REFERENCE_HASH_LEN)
}

fn copy_text(s: &Option<String>) -> (r: Option<String>)
    ensures
        text_view(r) == text_view(*s),
{
    match s {
        Some(t) => Some(t.clone()),
        None => None,
    }
}

fn copy_bytes(b: &Option<Vec<u8>>) -> (r: Option<Vec<u8>>)
    ensures
        bytes_view(r) == bytes_view(*b),
{
    match b {
        Some(v) => {
            let mut out: Vec<u8> = Vec::new();
            let mut i: usize = 0;
            while i < v.len()
                invariant
                    i <= v@.len(),
                    out@ == v@.subrange(0, i as int),
                decreases v@.len() - i,
            {
                out.push(v[i]);
                i = i + 1;
            }
            assert(out@ =~= v@);
            Some(out)
        },
        None => None,
    }
}

impl TokenMetadata {
    /// An independent copy with the same value.
    pub fn duplicate(&self) -> (r: TokenMetadata)
        ensures
            r@ == self@,
    {
        TokenMetadata {
            spec: self.spec.clone(),
            name: self.name.clone(),
            symbol: self.symbol.clone(),
            icon: copy_text(&self.icon),
            reference: copy_text(&self.reference),
            reference_hash: copy_bytes(&self.reference_hash),
            decimals: self.decimals,
        }
    }

    /// Whether the metadata is well formed.
    pub fn is_valid(&self) -> (r: bool)
        ensures
            r == metadata_valid(self@),
    {
        let expected = String::from_str(FT_METADATA_SPEC);
        if !(self.spec == expected) {
            return false;
        }
        if self.reference.is_some() != self.reference_hash.is_some() {
            return false;
        }
        match &self.reference_hash {
            Some(h) => h.len() == REFERENCE_HASH_LEN,
            None => true,
        }
    }
}

} // verus!
