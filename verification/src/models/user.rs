use vstd::prelude::*;

verus! {

/// Public profile of a user, handed to clients.
pub struct UserVo2 {
    pub id: i64,
    pub username: String,
    pub nick_name: String,
    pub role: String,
    pub icon: String,
}

/// Credential-bearing profile as cached and read from the relational store.
pub struct UserVo {
    pub id: i64,
    pub username: String,
    pub password: String,
    pub nick_name: String,
    pub role: String,
    pub icon: String,
}

impl UserVo {
    /// Strips the password hash off the cached profile.
    pub fn to_vo(self) -> (r: UserVo2)
        ensures
            r.id == self.id,
            r.username == self.username,
            r.nick_name == self.nick_name,
            r.role == self.role,
            r.icon == self.icon,
    {
        UserVo2 {
            id: self.id,
            username: self.username,
            nick_name: self.nick_name,
            role: self.role,
            icon: self.icon,
        }
    }
}

impl Clone for UserVo {
    fn clone(&self) -> (r: Self)
        ensures
            r == *self,
    {
        UserVo {
            id: self.id,
            username: self.username.clone(),
            password: self.password.clone(),
            nick_name: self.nick_name.clone(),
            role: self.role.clone(),
            icon: self.icon.clone(),
        }
    }
}

#[derive(Debug)]
pub struct SimpleUserVo {
    pub id: i64,
    pub nick_name: String,
}

impl Clone for SimpleUserVo {
    fn clone(&self) -> (r: Self)
        ensures
            r == *self,
    {
        SimpleUserVo { id: self.id, nick_name: self.nick_name.clone() }
    }
}

} // verus!
