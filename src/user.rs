use vstd::prelude::*;

verus! {

/// One user record. `id` is unset on creation requests and always set on a
/// record that came out of storage.
pub struct User {
    pub id: Option<i32>,
    pub name: String,
    pub email: String,
}

/// The mathematical value of a `User`.
pub ghost struct UserModel {
    pub id: Option<i32>,
    pub name: Seq<char>,
    pub email: Seq<char>,
}

impl View for User {
    type V = UserModel;

    open spec fn view(&self) -> UserModel {
        UserModel { id: self.id, name: self.name@, email: self.email@ }
    }
}

/// The records of a vector of users.
pub open spec fn users_model(v: Seq<User>) -> Seq<UserModel> {
    v.map_values(|u: User| u@)
}

impl User {
    /// A record with the given fields.
    pub fn new(id: Option<i32>, name: String, email: String) -> (r: User)
        ensures
            r.id == id,
            r.name@ == name@,
            r.email@ == email@,
    {
        User { id, name, email }
    }

    /// A copy of this record.
    pub fn duplicate(&self) -> (r: User)
        ensures
            r@ == self@,
    {
        User { id: self.id, name: self.name.clone(), email: self.email.clone() }
    }
}

} // verus!
