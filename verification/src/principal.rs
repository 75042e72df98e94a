//! Principals and the credential-store model.
//!
//! The credential store itself (password hashing, persistence) is an
//! external collaborator; what the authorization logic reads from it is a
//! record per principal, keyed by a unique subject id. `PrincipalStore`
//! holds such records as plain values so that introspection — in
//! particular its re-resolution of the principal at verification time —
//! can be specified and checked against the store's current contents.

use vstd::prelude::*;
use vstd::string::*;
use vstd::pervasive::VecAdditionalExecFns;
use validator::ValidateEmail;

verus! {

use crate::text::str_eq;

/// An authenticated identity record: a UUID-formatted subject id, the
/// email currently on file, and the creation time in seconds since the
/// Unix epoch.
#[derive(Debug)]
pub struct Principal {
    pub id: String,
    pub email: String,
    pub created_at: i64,
}

impl Principal {
    /// A field-for-field copy whose value Verus knows equals the original.
    pub fn duplicate(&self) -> (r: Principal)
        ensures
            r == *self,
    {
        Principal { id: self.id.clone(), email: self.email.clone(), created_at: self.created_at }
    }
}

/// Whether some record in the sequence carries this subject id.
pub open spec fn contains_id(records: Seq<Principal>, id: Seq<char>) -> bool {
    exists|k: int| 0 <= k < records.len() && records[k].id@ == id
}

/// Whether some record in the sequence carries this email.
pub open spec fn contains_email(records: Seq<Principal>, email: Seq<char>) -> bool {
    exists|k: int| 0 <= k < records.len() && records[k].email@ == email
}

/// The first record carrying this subject id, if any.
pub open spec fn spec_find(records: Seq<Principal>, id: Seq<char>) -> Option<Principal>
    decreases records.len(),
{
    if records.len() == 0 {
        None
    } else if records[0].id@ == id {
        Some(records[0])
    } else {
        spec_find(records.drop_first(), id)
    }
}

/// The records a credential store currently holds, with unique subject
/// ids. Emails are also kept unique, as registration refuses duplicates.
pub struct PrincipalStore {
    records: Vec<Principal>,
}

impl View for PrincipalStore {
    type V = Seq<Principal>;

    closed spec fn view(&self) -> Seq<Principal> {
        self.records@
    }
}

impl PrincipalStore {
    /// No two records share a subject id.
    pub open spec fn wf(&self) -> bool {
        forall|i: int, j: int| 0 <= i < j < self@.len() ==> self@[i].id@ != self@[j].id@
    }

    pub fn new() -> (r: PrincipalStore)
        ensures
            r@ =~= Seq::<Principal>::empty(),
            r.wf(),
    {
        PrincipalStore { records: Vec::new() }
    }

    /// Adds a record, refusing a subject id or an email already on file.
    pub fn register(&mut self, p: Principal) -> (added: bool)
        requires
            old(self).wf(),
        ensures
            final(self).wf(),
            added == (!contains_id(old(self)@, p.id@) && !contains_email(old(self)@, p.email@)),
            added ==> final(self)@ =~= old(self)@.push(p),
            !added ==> final(self)@ == old(self)@,
    {
        let n = self.records.len();
        let mut k: usize = 0;
        while k < n
            invariant
                old(self).wf(),
                k <= n,
                n == self.records.len(),
                self.records@ == old(self)@,
                forall|m: int|
                    0 <= m < k ==> self.records@[m].id@ != p.id@ && self.records@[m].email@
                        != p.email@,
            decreases n - k,
        {
            if str_eq(&self.records[k].id, &p.id) || str_eq(
                &self.records[k].email,
                &p.email,
            ) {
                return false;
            }
            k = k + 1;
        }
        self.records.push(p);
        proof {
            assert forall|i: int, j: int| 0 <= i < j < self@.len() implies self@[i].id@
                != self@[j].id@ by {
                if j == self@.len() - 1 {
                    assert(self@[i] == old(self)@[i]);
                } else {
                    assert(self@[i] == old(self)@[i]);
                    assert(self@[j] == old(self)@[j]);
                }
            }
        }
        true
    }

    /// Replaces the email of the record with this subject id, if present.
    pub fn update_email(&mut self, id: &str, email: String) -> (updated: bool)
        requires
            old(self).wf(),
        ensures
            final(self).wf(),
            updated == contains_id(old(self)@, id@),
            !updated ==> final(self)@ == old(self)@,
            updated ==> exists|k: int|
                #![auto]
                0 <= k < old(self)@.len() && old(self)@[k].id@ == id@ && final(self)@
                    =~= old(self)@.update(
                    k,
                    (Principal {
                        id: old(self)@[k].id,
                        email: email,
                        created_at: old(self)@[k].created_at,
                    }),
                ),
    {
        let n = self.records.len();
        let mut k: usize = 0;
        while k < n
            invariant
                old(self).wf(),
                k <= n,
                n == self.records.len(),
                self.records@ == old(self)@,
                forall|m: int| 0 <= m < k ==> self.records@[m].id@ != id@,
            decreases n - k,
        {
            if str_eq(self.records[k].id.as_str(), id) {
                let mut replaced = self.records[k].duplicate();
                replaced.email = email;
                self.records.set(k, replaced);
                proof {
                    assert(self@ =~= old(self)@.update(
                        k as int,
                        (Principal {
                            id: old(self)@[k as int].id,
                            email: replaced.email,
                            created_at: old(self)@[k as int].created_at,
                        }),
                    ));
                    assert forall|i: int, j: int| 0 <= i < j < self@.len() implies self@[i].id@
                        != self@[j].id@ by {
                        if i != k as int {
                            assert(self@[i] == old(self)@[i]);
                        }
                        if j != k as int {
                            assert(self@[j] == old(self)@[j]);
                        }
                        assert(self@[i].id@ == old(self)@[i].id@);
                        assert(self@[j].id@ == old(self)@[j].id@);
                        assert(old(self)@[i].id@ != old(self)@[j].id@);
                    }
                }
                return true;
            }
            k = k + 1;
        }
        false
    }

    /// The record with this subject id, freshly read.
    pub fn find_by_id(&self, id: &str) -> (r: Option<Principal>)
        ensures
            r == spec_find(self@, id@),
    {
        let n = self.records.len();
        proof {
            assert(self@.skip(0) =~= self@);
        }
        let mut k: usize = 0;
        while k < n
            invariant
                k <= n,
                n == self.records.len(),
                spec_find(self@, id@) == spec_find(self@.skip(k as int), id@),
            decreases n - k,
        {
            if str_eq(self.records[k].id.as_str(), id) {
                proof {
                    assert(self@.skip(k as int)[0] == self@[k as int]);
                }
                return Some(self.records[k].duplicate());
            }
            proof {
                assert(self@.skip(k as int).drop_first() =~= self@.skip(k + 1));
            }
            k = k + 1;
        }
        proof {
            assert(self@.skip(n as int) =~= Seq::<Principal>::empty());
        }
        None
    }
}

/// What the registration form accepts as credentials.
#[derive(Clone, Copy, Debug, PartialEq, Eq, Structural)]
pub enum CredentialsError {
    /// The email does not have a valid address shape.
    InvalidEmail,
    /// The password holds fewer than six characters.
    PasswordTooShort,
}

/// The address shape that `validator`'s email rule accepts.
pub uninterp spec fn email_ok(s: Seq<char>) -> bool;

/// Relies on validator's `ValidateEmail::validate_email` for `&str`: the
/// HTML5 email shape, a pure function of the characters of the string.
#[verifier::external_body]
fn email_is_valid(s: &str) -> (r: bool)
    ensures
        r == email_ok(s@),
{
    s.validate_email()
}

/// The registration rule: the email must have a valid address shape and
/// the password must hold at least six characters.
pub fn validate_registration(email: &str, password: &str) -> (r: Result<(), CredentialsError>)
    ensures
        r == Ok::<(), CredentialsError>(()) <==> email_ok(email@) && password@.len() >= 6,
        r == Err::<(), CredentialsError>(CredentialsError::InvalidEmail) <==> !email_ok(email@),
        r == Err::<(), CredentialsError>(CredentialsError::PasswordTooShort) <==> email_ok(email@)
            && password@.len() < 6,
    {
    if !email_is_valid(email) {
        return Err(CredentialsError::InvalidEmail);
    }
    if password.unicode_len() < 6 {
        return Err(CredentialsError::PasswordTooShort);
    }
    Ok(())
}

/// The login form checks only the email shape; the password is judged by
/// the credential store.
pub fn validate_login_email(email: &str) -> (r: Result<(), CredentialsError>)
    ensures
        r == Ok::<(), CredentialsError>(()) <==> email_ok(email@),
        r == Err::<(), CredentialsError>(CredentialsError::InvalidEmail) <==> !email_ok(email@),
    {
    if !email_is_valid(email) {
        return Err(CredentialsError::InvalidEmail);
    }
    Ok(())
}

} // verus!
