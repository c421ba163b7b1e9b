use solana_program::pubkey::Pubkey;
use vstd::prelude::*;

verus! {

/// A 32-byte ledger address.
#[derive(Clone, Copy, Debug, PartialEq, Eq)]
pub struct Address {
    pub bytes: [u8; 32],
}

impl View for Address {
    type V = Seq<u8>;

    open spec fn view(&self) -> Seq<u8> {
        self.bytes@
    }
}

impl Address {
    pub fn new(bytes: [u8; 32]) -> (r: Address)
        ensures
            r.bytes == bytes,
    {
        Address { bytes }
    }

    /// Byte-wise equality of two addresses.
    pub fn same_as(&self, other: &Address) -> (r: bool)
        ensures
            r == (self@ == other@),
    {
        let mut i: usize = 0;
        while i < 32
            invariant
                i <= 32,
                forall|j: int| 0 <= j < i ==> self@[j] == other@[j],
            decreases 32 - i,
        {
            if self.bytes[i] != other.bytes[i] {
                assert(self@[i as int] != other@[i as int]);
                return false;
            }
            i = i + 1;
        }
        assert(self@ =~= other@);
        true
    }
}

/// The address that the ledger derives from `seeds` under `program_id`, or
/// none where the digest of the seeds is a point of the curve (such an
/// address could have a private key).
pub uninterp spec fn program_address(seeds: Seq<Seq<u8>>, program_id: Seq<u8>) -> Option<Seq<u8>>;

/// The view of an optional address.
pub open spec fn opt_view(a: Option<Address>) -> Option<Seq<u8>> {
    match a {
        Some(x) => Some(x@),
        None => None,
    }
}

/// The address derived from a tag, a parent address and a one-byte nonce.
pub open spec fn derived(tag: Seq<u8>, parent: Seq<u8>, nonce: u8, program_id: Seq<u8>) -> Option<
    Seq<u8>,
> {
    program_address(seq![tag, parent, seq![nonce]], program_id)
}

/// Relies on `Pubkey::create_program_address` of solana-program: with three
/// seeds of at most 32 bytes each no length error arises, and the result is
/// the derived address, or the `InvalidSeeds` error where it lies on the curve.
#[verifier::external_body]
pub(crate) fn create_program_address(
    tag: &[u8],
    parent: &Address,
    nonce: u8,
    program_id: &Address,
) -> (r: Option<Address>)
    requires
        tag@.len() <= 32,
    ensures
        opt_view(r) == program_address(seq![tag@, parent@, seq![nonce]], program_id@),
{
    let bump = [nonce];
    let seeds: [&[u8]; 3] = [tag, &parent.bytes, &bump];
    Pubkey::create_program_address(&seeds, &Pubkey::new_from_array(program_id.bytes)).ok().map(
        |k| Address { bytes: k.to_bytes() },
    )
}

/// Relies on `Pubkey::try_find_program_address` of solana-program: off the
/// chain it tries the nonces from 255 down to 1 with `create_program_address`
/// on the seeds followed by the nonce, and returns the first address found
/// with its nonce, or none when every one of them lies on the curve.
#[verifier::external_body]
pub(crate) fn try_find_program_address(tag: &[u8], parent: &Address, program_id: &Address) -> (r:
    Option<(Address, u8)>)
    requires
        tag@.len() <= 32,
    ensures
        match r {
            Some((a, b)) => {
                &&& 1 <= b
                &&& derived(tag@, parent@, b, program_id@) == Some(a@)
                &&& forall|c: u8| b < c ==> #[trigger] derived(tag@, parent@, c, program_id@) is None
            },
            None => forall|c: u8| 1 <= c ==> #[trigger] derived(tag@, parent@, c, program_id@) is None,
        },
{
    let seeds: [&[u8]; 2] = [tag, &parent.bytes];
    Pubkey::try_find_program_address(&seeds, &Pubkey::new_from_array(program_id.bytes)).map(
        |(k, b)| (Address { bytes: k.to_bytes() }, b),
    )
}

/// The fixed tag that opens the seeds of a derived address.
#[derive(Clone, Copy, Debug, PartialEq, Eq, Structural)]
pub enum SeedTag {
    /// `auth`: the vault's signing authority, derived from the record's address.
    Auth,
    /// `sol_vault`: the native sub-account, derived from the authority's address.
    SolVault,
}

impl SeedTag {
    /// The tag's bytes.
    pub open spec fn seed(self) -> Seq<u8> {
        match self {
            SeedTag::Auth => seq![97u8, 117u8, 116u8, 104u8],
            SeedTag::SolVault => seq![115u8, 111u8, 108u8, 95u8, 118u8, 97u8, 117u8, 108u8, 116u8],
        }
    }

    pub fn bytes(&self) -> (r: Vec<u8>)
        ensures
            r@ == self.seed(),
    {
        let r: Vec<u8> = match self {
            SeedTag::Auth => vec![97u8, 117u8, 116u8, 104u8],
            SeedTag::SolVault => vec![115u8, 111u8, 108u8, 95u8, 118u8, 97u8, 117u8, 108u8, 116u8],
        };
        assert(r@ =~= self.seed());
        r
    }
}

/// A derived authority: the seed tuple that the ledger hashes to its address.
/// No private key exists for it; it signs by handing this tuple to the ledger.
#[derive(Clone, Copy, Debug, PartialEq, Eq)]
pub struct AuthorityHandle {
    pub seed_tag: SeedTag,
    pub parent: Address,
    pub nonce: u8,
}

impl AuthorityHandle {
    /// The address of this handle under `program_id`, if it has one.
    pub open spec fn address_of(self, program_id: Address) -> Option<Seq<u8>> {
        derived(self.seed_tag.seed(), self.parent@, self.nonce, program_id@)
    }

    /// Derives the address of this handle under `program_id`.
    pub fn derive(&self, program_id: &Address) -> (r: Option<Address>)
        ensures
            opt_view(r) == self.address_of(*program_id),
    {
        let tag = self.seed_tag.bytes();
        create_program_address(tag.as_slice(), &self.parent, self.nonce, program_id)
    }

    /// Derives the address of this handle again and compares it with `target`.
    pub fn rederives_to(&self, program_id: &Address, target: &Address) -> (r: bool)
        ensures
            r == (self.address_of(*program_id) == Some(target@)),
    {
        match self.derive(program_id) {
            Some(a) => a.same_as(target),
            None => false,
        }
    }
}

/// `nonce` is the canonical nonce of (`tag`, `parent`): the largest one from
/// 1 up that gives an address.
pub open spec fn is_canonical(tag: SeedTag, parent: Address, program_id: Address, nonce: u8) -> bool {
    &&& 1 <= nonce
    &&& derived(tag.seed(), parent@, nonce, program_id@) is Some
    &&& forall|c: u8| nonce < c ==> #[trigger] derived(tag.seed(), parent@, c, program_id@) is None
}

/// The canonical nonce of (`tag`, `parent`), if any nonce gives an address.
pub open spec fn canonical_nonce(tag: SeedTag, parent: Address, program_id: Address) -> Option<u8> {
    if exists|b: u8| is_canonical(tag, parent, program_id, b) {
        Some(choose|b: u8| is_canonical(tag, parent, program_id, b))
    } else {
        None
    }
}

/// At most one nonce is canonical.
pub proof fn lemma_canonical_unique(tag: SeedTag, parent: Address, program_id: Address, b1: u8, b2: u8)
    requires
        is_canonical(tag, parent, program_id, b1),
        is_canonical(tag, parent, program_id, b2),
    ensures
        b1 == b2,
{
    if b1 < b2 {
        assert(derived(tag.seed(), parent@, b2, program_id@) is None);
    } else if b2 < b1 {
        assert(derived(tag.seed(), parent@, b1, program_id@) is None);
    }
}

/// Searches the canonical nonce of (`tag`, `parent`) and its address.
pub fn find_nonce(tag: SeedTag, parent: &Address, program_id: &Address) -> (r: Option<(Address, u8)>)
    ensures
        match r {
            Some((a, b)) => {
                &&& canonical_nonce(tag, *parent, *program_id) == Some(b)
                &&& derived(tag.seed(), parent@, b, program_id@) == Some(a@)
            },
            None => canonical_nonce(tag, *parent, *program_id) is None,
        },
{
    let seed = tag.bytes();
    let r = try_find_program_address(seed.as_slice(), parent, program_id);
    proof {
        match r {
            Some((a, b)) => {
                assert(is_canonical(tag, *parent, *program_id, b));
                let c = choose|c: u8| is_canonical(tag, *parent, *program_id, c);
                lemma_canonical_unique(tag, *parent, *program_id, b, c);
            },
            None => {
                if exists|b: u8| is_canonical(tag, *parent, *program_id, b) {
                    let b = choose|b: u8| is_canonical(tag, *parent, *program_id, b);
                    assert(derived(tag.seed(), parent@, b, program_id@) is None);
                }
            },
        }
    }
    r
}

} // verus!
