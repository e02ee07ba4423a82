//! Public addresses and the fog public keys that belong to them.

use vstd::prelude::*;
use crate::error::FogPubkeyError;
use crate::keys::CompressedRistrettoPublic;

verus! {

/// Where a payment is sent.
#[derive(Clone, Debug, PartialEq, Eq)]
pub struct PublicAddress {
    pub view_public_key: CompressedRistrettoPublic,
    pub spend_public_key: CompressedRistrettoPublic,
    /// The address's fog report server; empty for an address without fog.
    pub fog_report_url: String,
}

/// A 16-byte hash of a public address, by which the parties to a payment
/// look each other up.
#[derive(Clone, Copy, Debug, PartialEq, Eq)]
pub struct ShortAddressHash {
    pub bytes: [u8; 16],
}

/// Whether two addresses name the same keys and the same fog server.
pub open spec fn same_address(a: PublicAddress, b: PublicAddress) -> bool {
    &&& a.view_public_key == b.view_public_key
    &&& a.spend_public_key == b.spend_public_key
    &&& a.fog_report_url@ == b.fog_report_url@
}

impl PublicAddress {
    pub fn new(
        spend_public_key: CompressedRistrettoPublic,
        view_public_key: CompressedRistrettoPublic,
    ) -> (a: PublicAddress)
        ensures
            a.view_public_key == view_public_key,
            a.spend_public_key == spend_public_key,
            !a.spec_has_fog(),
    {
        PublicAddress { view_public_key, spend_public_key, fog_report_url: String::new() }
    }

    pub fn new_with_fog(
        spend_public_key: CompressedRistrettoPublic,
        view_public_key: CompressedRistrettoPublic,
        fog_report_url: String,
    ) -> (a: PublicAddress)
        ensures
            a.view_public_key == view_public_key,
            a.spend_public_key == spend_public_key,
            a.fog_report_url == fog_report_url,
    {
        PublicAddress { view_public_key, spend_public_key, fog_report_url }
    }

    pub open spec fn spec_has_fog(&self) -> bool {
        self.fog_report_url@.len() > 0
    }

    /// Whether the address names a fog report server.
    #[verifier::when_used_as_spec(spec_has_fog)]
    pub fn has_fog(&self) -> (b: bool)
        ensures
            b == self.spec_has_fog(),
    {
        !self.fog_report_url.as_str().is_empty()
    }

    /// Whether two addresses name the same keys and the same fog server.
    pub fn same(&self, other: &PublicAddress) -> (b: bool)
        ensures
            b == same_address(*self, *other),
    {
        self.view_public_key.same(&other.view_public_key) && self.spend_public_key.same(
            &other.spend_public_key,
        ) && self.fog_report_url == other.fog_report_url
    }
}

/// The two addresses of a sender that a change output needs.
#[derive(Clone, Debug, PartialEq, Eq)]
pub struct ReservedDestination {
    /// The sender's primary address: the fog hint is made for it, so that
    /// one fog query finds payments and change alike.
    pub primary_address: PublicAddress,
    /// The sender's change subaddress: it owns the change output.
    pub change_subaddress: PublicAddress,
}

/// A fog ingest public key that was checked against its report.
#[derive(Clone, Copy, Debug, PartialEq, Eq)]
pub struct FullyValidatedFogPubkey {
    pub pubkey: CompressedRistrettoPublic,
    /// The last block in whose transactions the key may be used.
    pub pubkey_expiry: u64,
}

/// A source of fog public keys that were fetched and validated beforehand.
pub trait FogPubkeyResolver {
    /// What `get_fog_pubkey` returns for an address.
    spec fn fog_pubkey(&self, recipient: PublicAddress) -> Result<
        FullyValidatedFogPubkey,
        FogPubkeyError,
    >;

    /// The fog public key of an address, or why there is none.
    fn get_fog_pubkey(&self, recipient: &PublicAddress) -> (r: Result<
        FullyValidatedFogPubkey,
        FogPubkeyError,
    >)
        ensures
            r == self.fog_pubkey(*recipient),
    ;
}

/// A fog public key with the report server that it was fetched from.
#[derive(Clone, Debug, PartialEq, Eq)]
pub struct FogPubkeyEntry {
    pub fog_report_url: String,
    pub pubkey: FullyValidatedFogPubkey,
}

/// Fog public keys by report server, fetched and validated by the caller.
#[derive(Clone, Debug, PartialEq, Eq)]
pub struct FogPubkeyTable {
    pub entries: Vec<FogPubkeyEntry>,
}

/// The key of the first entry for `url`.
pub open spec fn first_pubkey_for(entries: Seq<FogPubkeyEntry>, url: Seq<char>) -> Option<
    FullyValidatedFogPubkey,
>
    decreases entries.len(),
{
    if entries.len() == 0 {
        None
    } else {
        match first_pubkey_for(entries.drop_last(), url) {
            Some(key) => Some(key),
            None => if entries.last().fog_report_url@ == url {
                Some(entries.last().pubkey)
            } else {
                None
            },
        }
    }
}

/// A key found among the first `k` entries is the key found among all.
pub proof fn lemma_first_pubkey_of_prefix(entries: Seq<FogPubkeyEntry>, url: Seq<char>, k: int)
    requires
        0 <= k <= entries.len(),
        first_pubkey_for(entries.take(k), url) is Some,
    ensures
        first_pubkey_for(entries, url) == first_pubkey_for(entries.take(k), url),
    decreases entries.len() - k,
{
    if k == entries.len() {
        assert(entries.take(k) =~= entries);
    } else {
        assert(entries.drop_last().take(k) =~= entries.take(k));
        lemma_first_pubkey_of_prefix(entries.drop_last(), url, k);
    }
}

impl FogPubkeyTable {
    pub fn new(entries: Vec<FogPubkeyEntry>) -> (t: FogPubkeyTable)
        ensures
            t.entries == entries,
    {
        FogPubkeyTable { entries }
    }
}

impl FogPubkeyResolver for FogPubkeyTable {
    open spec fn fog_pubkey(&self, recipient: PublicAddress) -> Result<
        FullyValidatedFogPubkey,
        FogPubkeyError,
    > {
        if !recipient.has_fog() {
            Err(FogPubkeyError::NoFogReportUrl)
        } else {
            match first_pubkey_for(self.entries@, recipient.fog_report_url@) {
                Some(key) => Ok(key),
                None => Err(FogPubkeyError::NoMatchingReportResponse),
            }
        }
    }

    fn get_fog_pubkey(&self, recipient: &PublicAddress) -> (r: Result<
        FullyValidatedFogPubkey,
        FogPubkeyError,
    >) {
        if !recipient.has_fog() {
            return Err(FogPubkeyError::NoFogReportUrl);
        }
        let n: usize = self.entries.len();
        let mut i: usize = 0;
        while i < n
            invariant
                0 <= i <= n,
                n == self.entries@.len(),
                recipient.has_fog(),
                first_pubkey_for(self.entries@.take(i as int), recipient.fog_report_url@) is None,
            decreases n - i,
        {
            proof {
                assert(self.entries@.take(i + 1).drop_last() =~= self.entries@.take(i as int));
            }
            if self.entries[i].fog_report_url == recipient.fog_report_url {
                proof {
                    assert(self.entries@.take(i + 1).last() == self.entries@[i as int]);
                    lemma_first_pubkey_of_prefix(
                        self.entries@,
                        recipient.fog_report_url@,
                        i + 1,
                    );
                }
                return Ok(self.entries[i].pubkey);
            }
            i += 1;
        }
        proof {
            assert(self.entries@.take(n as int) =~= self.entries@);
        }
        Err(FogPubkeyError::NoMatchingReportResponse)
    }
}

} // verus!
