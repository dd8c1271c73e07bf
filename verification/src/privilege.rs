use vstd::prelude::*;

verus! {

/// The execution identity prefix applied to a raw command.
#[derive(Debug, Clone, Copy, PartialEq, Eq, Structural)]
pub enum Privilege {
    /// Run the command as the current authenticated user.
    Usual,
    /// Run the command with sudo.
    WithSudo,
    /// Run the command with sudo-rs.
    WithSudoRs,
}

/// A username and its password. The password is secret: nothing in this
/// crate prints it; reports go through [`Credentials::describe`], which
/// redacts it.
#[derive(Clone, PartialEq, Eq)]
pub struct Credentials {
    username: String,
    password: String,
}

impl Credentials {
    pub closed spec fn spec_username(&self) -> Seq<char> {
        self.username@
    }

    pub closed spec fn spec_password(&self) -> Seq<char> {
        self.password@
    }

    pub fn from(username: &str, password: &str) -> (r: Credentials)
        ensures
            r.spec_username() == username@,
            r.spec_password() == password@,
    {
        Credentials { username: username.to_owned(), password: password.to_owned() }
    }

    pub fn username(&self) -> (r: &str)
        ensures
            r@ == self.spec_username(),
    {
        self.username.as_str()
    }

    pub fn password(&self) -> (r: &str)
        ensures
            r@ == self.spec_password(),
    {
        self.password.as_str()
    }

    /// Human-readable form with the password redacted.
    pub fn describe(&self) -> (r: String)
        ensures
            r@ == "Credentials { username: "@ + self.spec_username() + ", password: \"********\" }"@,
    {
        let mut s = String::from_str("Credentials { username: ");
        s.append(self.username.as_str());
        s.append(", password: \"********\" }");
        s
    }
}

/// Which local identity a command runs under.
#[derive(Clone, PartialEq, Eq)]
pub enum WhichUser {
    CurrentUser,
    /// The username of an account that sudo reaches without a password.
    PasswordLessUser(String),
    UsernamePassword(Credentials),
}

/// The exact command string the engine hands to the host for a raw command
/// `cmd` run under `privilege` as `user`. These bytes are the system's
/// contract with the managed host.
pub open spec fn spec_final_command(cmd: Seq<char>, privilege: Privilege, user: WhichUser) -> Seq<
    char,
> {
    match user {
        WhichUser::CurrentUser => match privilege {
            Privilege::Usual => cmd + " 2>&1"@,
            Privilege::WithSudo => "sudo "@ + cmd + " 2>&1"@,
            Privilege::WithSudoRs => "sudo-rs "@ + cmd + " 2>&1"@,
        },
        WhichUser::PasswordLessUser(username) => match privilege {
            Privilege::Usual | Privilege::WithSudo => "sudo -u "@ + username@ + " "@ + cmd
                + " 2>&1"@,
            Privilege::WithSudoRs => "sudo-rs -u "@ + username@ + " "@ + cmd + " 2>&1"@,
        },
        WhichUser::UsernamePassword(credentials) => match privilege {
            Privilege::Usual | Privilege::WithSudo => "echo "@ + credentials.spec_password()
                + " | sudo -S -u "@ + credentials.spec_username() + " "@ + cmd + " 2>&1"@,
            Privilege::WithSudoRs => "echo "@ + credentials.spec_password() + " | sudo-rs -S -u "@
                + credentials.spec_username() + " "@ + cmd + " 2>&1"@,
        },
    }
}

/// Composes the command actually executed on the host: the privilege wrapper
/// around `cmd`, with stderr merged into stdout (classification of a command
/// uses its exit code plus stdout pattern matching).
pub fn final_command(cmd: &str, privilege: &Privilege, user: &WhichUser) -> (r: String)
    ensures
        r@ == spec_final_command(cmd@, *privilege, *user),
{
    let mut s: String = match user {
        WhichUser::CurrentUser => match privilege {
            Privilege::Usual => String::from_str(cmd),
            Privilege::WithSudo => {
                let mut t = String::from_str("sudo ");
                t.append(cmd);
                t
            },
            Privilege::WithSudoRs => {
                let mut t = String::from_str("sudo-rs ");
                t.append(cmd);
                t
            },
        },
        WhichUser::PasswordLessUser(username) => {
            let mut t: String = match privilege {
                Privilege::Usual | Privilege::WithSudo => String::from_str("sudo -u "),
                Privilege::WithSudoRs => String::from_str("sudo-rs -u "),
            };
            t.append(username.as_str());
            t.append(" ");
            t.append(cmd);
            t
        },
        WhichUser::UsernamePassword(credentials) => {
            let mut t = String::from_str("echo ");
            t.append(credentials.password());
            match privilege {
                Privilege::Usual | Privilege::WithSudo => t.append(" | sudo -S -u "),
                Privilege::WithSudoRs => t.append(" | sudo-rs -S -u "),
            }
            t.append(credentials.username());
            t.append(" ");
            t.append(cmd);
            t
        },
    };
    s.append(" 2>&1");
    s
}

} // verus!
