//! The process-wide client handle.
//!
//! A client bundles the defaults every derived transaction and query starts
//! from: the node to submit to, the operator account that pays, and the
//! operator's signing key. It is immutable once configured; many
//! transactions and queries may be derived from one client. The network
//! connection itself lives with the caller: the client only remembers the
//! address it was given.

use vstd::prelude::*;
use crate::crypto::SecretKey;
use crate::crypto::secret_key_wf;
use crate::error::ErrorKind;
use crate::error::is_parse_error;
use crate::id::AccountId;
use crate::query::Query;
use crate::query::QueryGetAccountBalance;
use crate::query::QueryGetTransactionReceipt;
use crate::query::QueryKind;
use crate::query::ResponseType;
use crate::query::query_wf;
use crate::text::find_char;
use crate::text::lemma_find_char_characterize;
use crate::text::parse_i64_at;
use crate::text::spec_parse_i64_at;
use crate::transaction::Transaction;
use crate::transaction::TransactionKind;
use crate::transaction::fresh_from_client;
use crate::transaction_id::TransactionId;
use crate::wire::OperationData;
use crate::wire::TransactionCryptoCreate;
use crate::wire::TransactionCryptoDelete;
use crate::wire::TransactionCryptoDeleteClaim;
use vstd::string::StrSliceExecFns;

verus! {

/// The defaults that transactions and queries derived from this client
/// start from, plus the address of the node's transport endpoint.
#[derive(Debug)]
pub struct Client {
    /// The transport host name.
    pub host: String,
    /// The transport port.
    pub port: u16,
    /// The default node to submit to.
    pub node: Option<AccountId>,
    /// The default operator: the account that pays.
    pub operator: Option<AccountId>,
    /// The default operator's signing key.
    pub operator_secret: Option<SecretKey>,
}

/// A configured signing key holds exactly its 32 secret bytes.
pub open spec fn client_wf(c: Client) -> bool {
    c.operator_secret matches Some(k) ==> secret_key_wf(k)
}

/// The port that the text `s` spells after the first colon: the prefix is
/// the host, the rest one decimal number below 65536; `None` on any other
/// text.
pub open spec fn spec_parse_address(s: Seq<char>) -> Option<(Seq<char>, u16)> {
    let k = find_char(s, ':', 0);
    if k >= s.len() {
        None
    } else {
        match spec_parse_i64_at(s, k + 1) {
            None => None,
            Some((port, end)) => if end == s.len() && 0 <= port <= 65535 {
                Some((s.subrange(0, k), port as u16))
            } else {
                None
            },
        }
    }
}

impl Client {
    /// A client for the node at `"host:port"`, with no defaults configured.
    /// The text must hold exactly one colon-separated port after the host.
    pub fn new(address: &str) -> (r: Result<Client, ErrorKind>)
        ensures
            spec_parse_address(address@) matches Some(p) ==> (r matches Ok(c) && c.host@ == p.0
                && c.port == p.1 && c.node is None && c.operator is None
                && c.operator_secret is None),
            spec_parse_address(address@) is None ==> (r matches Err(e) && is_parse_error(e)),
            r matches Ok(c) ==> client_wf(c),
    {
        let len = address.unicode_len();
        let bad: Result<Client, ErrorKind> = Err(ErrorKind::Parse("{host}:{port}"));
        let mut k: usize = 0;
        loop
            invariant
                k <= len,
                len == address@.len(),
                forall|j: int| 0 <= j < k ==> address@[j] != ':',
            ensures
                k <= len,
                len == address@.len(),
                forall|j: int| 0 <= j < k ==> address@[j] != ':',
                k == len || address@[k as int] == ':',
            decreases len - k,
        {
            if k == len {
                break ;
            }
            if address.get_char(k) == ':' {
                break ;
            }
            k = k + 1;
        }
        proof {
            lemma_find_char_characterize(address@, ':', 0, k as int);
        }
        if k == len {
            return bad;
        }
        match parse_i64_at(address, k + 1) {
            None => bad,
            Some((port, end)) => {
                if end == len && 0 <= port && port <= 65535 {
                    let host = address.substring_char(0, k);
                    Ok(
                        Client {
                            host: host.to_owned(),
                            port: port as u16,
                            node: None,
                            operator: None,
                            operator_secret: None,
                        },
                    )
                } else {
                    bad
                }
            },
        }
    }

    /// The same client with `node` as the default node to submit to.
    pub fn set_node(&mut self, node: AccountId)
        requires
            client_wf(*old(self)),
        ensures
            client_wf(*final(self)),
            *final(self) == (Client { node: Some(node), ..*old(self) }),
    {
        self.node = Some(node);
    }

    /// The same client with `operator` paying for derived transactions and
    /// `secret` signing them.
    pub fn set_operator(&mut self, operator: AccountId, secret: SecretKey)
        requires
            client_wf(*old(self)),
            secret_key_wf(secret),
        ensures
            client_wf(*final(self)),
            final(self).operator == Some(operator),
            final(self).operator_secret matches Some(k) && k.bytes@ == secret.bytes@,
            final(self).host == old(self).host,
            final(self).port == old(self).port,
            final(self).node == old(self).node,
    {
        self.operator = Some(operator);
        self.operator_secret = Some(secret);
    }

    /// A fresh transaction creating a crypto-currency account, with no
    /// owning key named and an opening balance of zero until set.
    pub fn create_account(&self) -> (r: Transaction)
        requires
            client_wf(*self),
        ensures
            fresh_from_client(r, *self),
            r.kind matches TransactionKind::Building(b) && b.inner matches
                OperationData::CryptoCreate(d) && d.key is None && d.initial_balance == 0,
    {
        Transaction::new(
            self,
            OperationData::CryptoCreate(TransactionCryptoCreate { key: None, initial_balance: 0 }),
        )
    }

    /// The messages that concern one account.
    pub fn account(&self, id: AccountId) -> (r: PartialAccountMessage)
        ensures
            r.1 == id,
            *r.0 == *self,
    {
        PartialAccountMessage(self, id)
    }

    /// The messages that concern one submitted transaction.
    pub fn transaction(&self, id: TransactionId) -> (r: PartialTransactionMessage)
        ensures
            r.1 == id,
            *r.0 == *self,
    {
        PartialTransactionMessage(self, id)
    }
}

/// A client and an account it is asked about.
pub struct PartialAccountMessage<'a>(pub &'a Client, pub AccountId);

impl<'a> PartialAccountMessage<'a> {
    /// A fresh query for the account's balance.
    pub fn balance(self) -> (r: Query)
        requires
            client_wf(*self.0),
        ensures
            query_wf(r),
            r.inner == QueryKind::GetAccountBalance(self.1),
            r.kind == ResponseType::AnswerOnly && r.payment is None && r.attempt == 0,
            r.operator == self.0.operator && r.node == self.0.node,
    {
        QueryGetAccountBalance::new(self.0, self.1)
    }

    /// A fresh transaction marking the account deleted. Its remaining
    /// balance moves to the named transfer account; none is named here, so
    /// the engine points it at the operator at execute time.
    pub fn delete(self) -> (r: Transaction)
        requires
            client_wf(*self.0),
        ensures
            fresh_from_client(r, *self.0),
            r.kind matches TransactionKind::Building(b) && b.inner matches
                OperationData::CryptoDelete(d) && d.account == self.1 && d.transfer_account
                is None,
    {
        Transaction::new(
            self.0,
            OperationData::CryptoDelete(
                TransactionCryptoDelete { account: self.1, transfer_account: None },
            ),
        )
    }

    /// The messages that concern one claim hash attached to the account.
    pub fn claim(self, hash: Vec<u8>) -> (r: PartialAccountClaimMessage<'a>)
        ensures
            *r.0.0 == *self.0,
            r.0.1 == self.1,
            r.1@ == hash@,
    {
        PartialAccountClaimMessage(self, hash)
    }
}

/// A client, an account, and a claim hash attached to it.
pub struct PartialAccountClaimMessage<'a>(pub PartialAccountMessage<'a>, pub Vec<u8>);

impl<'a> PartialAccountClaimMessage<'a> {
    /// A fresh transaction deleting the claim hash from the account.
    pub fn delete(self) -> (r: Transaction)
        requires
            client_wf(*self.0.0),
        ensures
            fresh_from_client(r, *self.0.0),
            r.kind matches TransactionKind::Building(b) && b.inner matches
                OperationData::CryptoDeleteClaim(d) && d.account == self.0.1 && d.hash@
                == self.1@,
    {
        Transaction::new(
            self.0.0,
            OperationData::CryptoDeleteClaim(
                TransactionCryptoDeleteClaim { account: self.0.1, hash: self.1 },
            ),
        )
    }
}

/// A client and a submitted transaction it is asked about.
pub struct PartialTransactionMessage<'a>(pub &'a Client, pub TransactionId);

impl<'a> PartialTransactionMessage<'a> {
    /// A fresh query for the transaction's receipt: once it reaches
    /// consensus, whether it succeeded or failed stays retrievable until
    /// the end of the receipt period.
    pub fn receipt(self) -> (r: Query)
        requires
            client_wf(*self.0),
        ensures
            query_wf(r),
            r.inner == QueryKind::GetTransactionReceipt(self.1),
            r.kind == ResponseType::AnswerOnly && r.payment is None && r.attempt == 0,
            r.operator == self.0.operator && r.node == self.0.node,
    {
        QueryGetTransactionReceipt::new(self.0, self.1)
    }
}

} // verus!
