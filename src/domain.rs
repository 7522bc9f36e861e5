use vstd::prelude::*;

verus! {

/// An employee record as storage holds it.
///
/// Dates are day numbers counted from the start of the common era
/// (0001-01-01 is day 1), as `chrono::Datelike::num_days_from_ce` gives them.
pub struct User {
    pub personnel_nr: i16,
    pub salt: String,
    pub password: String,
    pub password_expiration_date: i32,
    pub username: String,
    pub account_disabled: bool,
    pub date_dismiss: Option<i32>,
    pub telefon: Option<String>,
    pub email: Option<String>,
}

/// A role granted to a user.
pub struct UserRole {
    pub role_id: i16,
    pub role_name: String,
}

/// A resource a user may reach, and whether writing or executing is allowed.
pub struct UserResource {
    pub resource_id: i16,
    pub resource_name: String,
    pub with_write_or_execution: bool,
}

fn copy_optional_text(s: &Option<String>) -> (r: Option<String>)
    ensures
        r == *s,
{
    match s {
        Some(t) => Some(t.clone()),
        None => None,
    }
}

impl User {
    /// A field-for-field copy.
    pub fn duplicate(&self) -> (r: User)
        ensures
            r == *self,
    {
        User {
            personnel_nr: self.personnel_nr,
            salt: self.salt.clone(),
            password: self.password.clone(),
            password_expiration_date: self.password_expiration_date,
            username: self.username.clone(),
            account_disabled: self.account_disabled,
            date_dismiss: self.date_dismiss,
            telefon: copy_optional_text(&self.telefon),
            email: copy_optional_text(&self.email),
        }
    }
}

impl UserRole {
    /// A field-for-field copy.
    pub fn duplicate(&self) -> (r: UserRole)
        ensures
            r == *self,
    {
        UserRole { role_id: self.role_id, role_name: self.role_name.clone() }
    }
}

impl UserResource {
    /// A field-for-field copy.
    pub fn duplicate(&self) -> (r: UserResource)
        ensures
            r == *self,
    {
        UserResource {
            resource_id: self.resource_id,
            resource_name: self.resource_name.clone(),
            with_write_or_execution: self.with_write_or_execution,
        }
    }
}

/// A copy of a list of roles, element for element.
pub fn copy_roles(v: &Vec<UserRole>) -> (r: Vec<UserRole>)
    ensures
        r@ == v@,
{
    let mut r: Vec<UserRole> = Vec::new();
    let mut i: usize = 0;
    while i < v.len()
        invariant
            i <= v@.len(),
            r@ == v@.subrange(0, i as int),
        decreases v@.len() - i,
    {
        r.push(v[i].duplicate());
        i = i + 1;
    }
    assert(r@ =~= v@);
    r
}

/// A copy of a list of resources, element for element.
pub fn copy_resources(v: &Vec<UserResource>) -> (r: Vec<UserResource>)
    ensures
        r@ == v@,
{
    let mut r: Vec<UserResource> = Vec::new();
    let mut i: usize = 0;
    while i < v.len()
        invariant
            i <= v@.len(),
            r@ == v@.subrange(0, i as int),
        decreases v@.len() - i,
    {
        r.push(v[i].duplicate());
        i = i + 1;
    }
    assert(r@ =~= v@);
    r
}

} // verus!
