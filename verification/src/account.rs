//! Local accounts: a private key, and the public key and addresses it gives.
use vstd::prelude::*;
use crate::error::AccountError;
use crate::keyring::{
    decode_pkcs8, derive_public_account, derive_secret, encode_pkcs8, key_secret, mnemonic_seed, pkcs8_document,
    pkcs8_secret, public_key_account, random_mnemonic, seed_from_mnemonic, COSMOS_BASE_DERIVATION_PATH,
};

verus! {

/// A local account: its private key, and the public key derived from it.
#[derive(Clone, Debug)]
pub struct AccountInfo {
    private_key: Vec<u8>,
    public_key: Vec<u8>,
}

/// The public key of private key bytes, as worked out together with the
/// key's `cosmos` address.
pub open spec fn public_key_of(secret: Seq<u8>) -> Option<Seq<u8>> {
    match public_key_account(secret, "cosmos"@) {
        Ok((p, _)) => Some(p),
        Err(_) => None,
    }
}

/// What making an account from the mnemonic `phrase` and `password` gives:
/// the private key derived along the Cosmos path after it passes through its
/// PKCS#8 document, or, from the first step that fails, its error text,
/// flagged `true` when the public key or the `cosmos` address could not be
/// made from the key.
pub open spec fn fresh_account(phrase: Seq<char>, password: Seq<char>) -> Result<Seq<u8>, (bool, Seq<char>)> {
    match key_secret(phrase, password, "m/44'/118'/0'/0/0"@) {
        Err(e) => Err((false, e)),
        Ok(secret) => match pkcs8_document(secret) {
            Err(e) => Err((false, e)),
            Ok(document) => match pkcs8_secret(document) {
                Err(e) => Err((false, e)),
                Ok(key) => match public_key_account(key, "cosmos"@) {
                    Err(e) => Err((true, e)),
                    Ok(_) => Ok(key),
                },
            },
        },
    }
}

/// Whether `r` is what making an account from `phrase` and `password` gives:
/// the account of that key, or the error of the step that failed.
pub open spec fn account_outcome(r: Result<AccountInfo, AccountError>, phrase: Seq<char>, password: Seq<char>) -> bool {
    match r {
        Ok(a) => fresh_account(phrase, password) == Ok::<Seq<u8>, (bool, Seq<char>)>(a.secret()),
        Err(AccountError::Decode(m)) => fresh_account(phrase, password) == Err::<Seq<u8>, (bool, Seq<char>)>((false, m@)),
        Err(AccountError::InvalidPublicKey(m)) => fresh_account(phrase, password) == Err::<Seq<u8>, (bool, Seq<char>)>((true, m@)),
        Err(AccountError::Empty(_)) => false,
    }
}

impl AccountInfo {
    /// The account's private key bytes.
    pub closed spec fn secret(&self) -> Seq<u8> {
        self.private_key@
    }

    /// The account's public key bytes.
    pub closed spec fn public(&self) -> Seq<u8> {
        self.public_key@
    }

    /// The account of private key bytes; an error when they are no valid
    /// secp256k1 key.
    pub fn from_private_key(private_key: Vec<u8>) -> (r: Result<AccountInfo, AccountError>)
        ensures
            r is Ok <==> public_key_account(private_key@, "cosmos"@) is Ok,
            r is Ok ==> r->Ok_0.secret() == private_key@ && Some(r->Ok_0.public()) == public_key_of(private_key@),
            r is Err ==> (r->Err_0 matches AccountError::InvalidPublicKey(m) && m@ == public_key_account(
                private_key@,
                "cosmos"@,
            )->Err_0),
    {
        match derive_public_account(&private_key, "cosmos") {
            Ok((public_key, _)) => Ok(AccountInfo { private_key, public_key }),
            Err(e) => Err(AccountError::InvalidPublicKey(e)),
        }
    }

    /// A new account with a key made from a fresh random mnemonic and
    /// `password` along the Cosmos derivation path; its key passes through
    /// its PKCS#8 document, as stored keys do. An error when a step of making
    /// the key fails.
    pub fn new(password: &str) -> (r: Result<AccountInfo, AccountError>)
        ensures
            r is Ok ==> exists|phrase: Seq<char>|
                #![trigger key_secret(phrase, password@, "m/44'/118'/0'/0/0"@)]
                key_secret(phrase, password@, "m/44'/118'/0'/0/0"@) matches Ok(s) && pkcs8_document(s) matches Ok(d)
                    && pkcs8_secret(d) == Ok::<Seq<u8>, Seq<char>>(r->Ok_0.secret()),
            r is Ok ==> Some(r->Ok_0.public()) == public_key_of(r->Ok_0.secret()),
            exists|phrase: Seq<char>|
                #![trigger fresh_account(phrase, password@)]
                mnemonic_seed(phrase, password@) is Ok && account_outcome(r, phrase, password@),
    {
        let phrase = random_mnemonic();
        let seed = match seed_from_mnemonic(phrase.as_str(), password) {
            Ok(s) => s,
            Err(e) => {
                assert(mnemonic_seed(phrase@, password@) is Ok);
                return Err(AccountError::Decode(e));
            },
        };
        proof {
            reveal_strlit("m/44'/118'/0'/0/0");
        }
        let secret = match derive_secret(&seed, COSMOS_BASE_DERIVATION_PATH) {
            Ok(s) => s,
            Err(e) => {
                let r = Err(AccountError::Decode(e));
                assert(account_outcome(r, phrase@, password@));
                assert(fresh_account(phrase@, password@) is Err);
                return r;
            },
        };
        let document = match encode_pkcs8(&secret) {
            Ok(d) => d,
            Err(e) => {
                let r = Err(AccountError::Decode(e));
                assert(account_outcome(r, phrase@, password@));
                assert(fresh_account(phrase@, password@) is Err);
                return r;
            },
        };
        let decoded = match decode_pkcs8(&document) {
            Ok(s) => s,
            Err(e) => {
                let r = Err(AccountError::Decode(e));
                assert(account_outcome(r, phrase@, password@));
                assert(fresh_account(phrase@, password@) is Err);
                return r;
            },
        };
        assert(key_secret(phrase@, password@, "m/44'/118'/0'/0/0"@) == Ok::<Seq<u8>, Seq<char>>(secret@));
        let r = AccountInfo::from_private_key(decoded);
        assert(account_outcome(r, phrase@, password@));
        assert(fresh_account(phrase@, password@) == fresh_account(phrase@, password@));
        r
    }

    /// The account's identifier with `prefix`, written as its bech32 text; an
    /// error when the prefix is refused.
    pub fn id(&self, prefix: &str) -> (r: Result<String, AccountError>)
        ensures
            public_key_account(self.secret(), prefix@) matches Ok((_, a)) ==> (r matches Ok(s) && s@ == a),
            public_key_account(self.secret(), prefix@) matches Err(e) ==> (r matches Err(AccountError::Decode(m))
                && m@ == e),
    {
        match derive_public_account(&self.private_key, prefix) {
            Ok((_, account)) => Ok(account),
            Err(e) => Err(AccountError::Decode(e)),
        }
    }

    /// The account's bech32 address with `prefix`: the text of its
    /// identifier.
    pub fn address(&self, prefix: &str) -> (r: Result<String, AccountError>)
        ensures
            public_key_account(self.secret(), prefix@) matches Ok((_, a)) ==> (r matches Ok(s) && s@ == a),
            public_key_account(self.secret(), prefix@) matches Err(e) ==> (r matches Err(AccountError::Decode(m))
                && m@ == e),
    {
        self.id(prefix)
    }

    /// The account's public key bytes.
    pub fn public_key(&self) -> (r: Vec<u8>)
        ensures
            r@ == self.public(),
    {
        let r = self.public_key.clone();
        assert(r@ =~= self.public_key@);
        r
    }

    /// The account's private key bytes.
    pub fn private_key(&self) -> (r: &Vec<u8>)
        ensures
            r@ == self.secret(),
    {
        &self.private_key
    }
}

} // verus!
