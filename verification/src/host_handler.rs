use vstd::prelude::*;

use crate::command::CommandResult;
use crate::error::Error;
use crate::privilege::{final_command, spec_final_command, Privilege, WhichUser};
use crate::util::{find_char, parse_u64_prefix, spec_digits_value, spec_find_char, spec_is_digit};

verus! {

/// One request the engine made of a handler: the raw command and the
/// privilege it was to run under (before privilege composition).
#[derive(Clone, PartialEq, Eq)]
pub struct ExecutedCommand {
    pub command: String,
    pub privilege: Privilege,
}

/// What a handler records of one request, as a mathematical value.
pub open spec fn record_of(cmd: Seq<char>, privilege: Privilege) -> (Seq<char>, Privilege) {
    (cmd, privilege)
}

/// The uniform interface to run commands against a local or remote host.
///
/// `executed()` is the handler's ghost history of requests: every
/// `run_command` appends exactly its raw command and privilege. Contracts of
/// the engine are stated over this history; it is how "assess is read-only"
/// is said and proved.
pub trait HostHandler: Sized {
    /// Whether the handler currently holds an authenticated connection.
    /// The default stands for handlers outside the library, which carry no
    /// model; verified handlers override it.
    open spec fn connected(&self) -> bool {
        true
    }

    /// The raw commands this handler has been asked to run, in order. The
    /// default stands for handlers outside the library, which carry no
    /// model; verified handlers override it.
    open spec fn executed(&self) -> Seq<(Seq<char>, Privilege)> {
        Seq::empty()
    }

    fn connect(&mut self, endpoint: &str) -> (r: Result<(), Error>)
        ensures
            final(self).executed() == old(self).executed(),
            r matches Ok(_) ==> final(self).connected(),
    ;

    fn is_connected(&mut self) -> (r: bool)
        ensures
            *final(self) == *old(self),
            r == old(self).connected(),
    ;

    fn disconnect(&mut self) -> (r: Result<(), Error>)
        ensures
            final(self).executed() == old(self).executed(),
            r matches Ok(_) ==> !final(self).connected(),
    ;

    fn run_command(&mut self, command: &str, privilege: &Privilege) -> (r: Result<
        CommandResult,
        Error,
    >)
        ensures
            final(self).executed() == old(self).executed().push(
                record_of(command@, *privilege),
            ),
    ;
}

/// `post` extends `pre` and every appended record satisfies `allowed`.
/// Assessment functions promise this of the handler's history with `allowed`
/// admitting only read-only probes: that is how "assess executes no
/// remediation" is stated.
pub open spec fn spec_appended_only(
    pre: Seq<(Seq<char>, Privilege)>,
    post: Seq<(Seq<char>, Privilege)>,
    allowed: spec_fn((Seq<char>, Privilege)) -> bool,
) -> bool {
    &&& post.len() >= pre.len()
    &&& post.subrange(0, pre.len() as int) == pre
    &&& forall|i: int| pre.len() <= i < post.len() ==> allowed(post[i])
}

pub proof fn lemma_appended_only_refl(
    s: Seq<(Seq<char>, Privilege)>,
    allowed: spec_fn((Seq<char>, Privilege)) -> bool,
)
    ensures
        spec_appended_only(s, s, allowed),
{
    assert(s.subrange(0, s.len() as int) =~= s);
}

pub proof fn lemma_appended_only_push(
    pre: Seq<(Seq<char>, Privilege)>,
    rec: (Seq<char>, Privilege),
    allowed: spec_fn((Seq<char>, Privilege)) -> bool,
)
    requires
        allowed(rec),
    ensures
        spec_appended_only(pre, pre.push(rec), allowed),
{
    assert(pre.push(rec).subrange(0, pre.len() as int) =~= pre);
}

pub proof fn lemma_appended_only_trans(
    a: Seq<(Seq<char>, Privilege)>,
    b: Seq<(Seq<char>, Privilege)>,
    c: Seq<(Seq<char>, Privilege)>,
    allowed: spec_fn((Seq<char>, Privilege)) -> bool,
)
    requires
        spec_appended_only(a, b, allowed),
        spec_appended_only(b, c, allowed),
    ensures
        spec_appended_only(a, c, allowed),
{
    assert(c.subrange(0, a.len() as int) =~= a) by {
        assert(forall|i: int|
            0 <= i < a.len() ==> c.subrange(0, a.len() as int)[i] == c.subrange(
                0,
                b.len() as int,
            )[i]);
    }
    assert forall|i: int| a.len() <= i < c.len() implies allowed(c[i]) by {
        if i < b.len() {
            assert(c[i] == c.subrange(0, b.len() as int)[i]);
            assert(allowed(b[i]));
        }
    }
}

/// Whatever was appended under the tighter predicate was appended under the
/// looser one.
pub proof fn lemma_appended_only_implies(
    pre: Seq<(Seq<char>, Privilege)>,
    post: Seq<(Seq<char>, Privilege)>,
    tight: spec_fn((Seq<char>, Privilege)) -> bool,
    loose: spec_fn((Seq<char>, Privilege)) -> bool,
)
    requires
        spec_appended_only(pre, post, tight),
        forall|rec: (Seq<char>, Privilege)| #[trigger] tight(rec) ==> loose(rec),
    ensures
        spec_appended_only(pre, post, loose),
{
    assert forall|i: int| pre.len() <= i < post.len() implies loose(post[i]) by {
        assert(tight(post[i]));
    }
}

/// Whether a host endpoint's text is an address alone or carries a port:
/// everything up to the first `:` is the address; what follows must then be
/// a decimal port. A missing port means 22.
pub open spec fn spec_endpoint_ok(endpoint: Seq<char>) -> bool {
    let cut = spec_find_char(endpoint, 0, ':');
    &&& cut > 0
    &&& (cut < endpoint.len() ==> {
        let digits = endpoint.subrange(cut + 1, endpoint.len() as int);
        &&& digits.len() > 0
        &&& (forall|k: int| 0 <= k < digits.len() ==> spec_is_digit(digits[k]))
        &&& spec_digits_value(digits) <= u16::MAX
    })
}

/// Splits an endpoint of the form `address` or `address:port`: the text up
/// to the first `:` and the port, 22 when none is given. Exactly the
/// endpoints with an empty address or a malformed or oversized port are
/// rejected.
pub fn parse_endpoint(endpoint: &str) -> (r: Result<(String, u16), Error>)
    ensures
        r is Ok <==> spec_endpoint_ok(endpoint@),
        r matches Ok(t) ==> {
            let cut = spec_find_char(endpoint@, 0, ':');
            &&& t.0@ == endpoint@.subrange(0, cut)
            &&& (cut == endpoint@.len() ==> t.1 == 22)
            &&& (cut < endpoint@.len() ==> t.1 == spec_digits_value(
                endpoint@.subrange(cut + 1, endpoint@.len() as int),
            ))
        },
        r matches Err(e) ==> e matches Error::FailedInitialization(_),
{
    let len = endpoint.unicode_len();
    let cut = find_char(endpoint, 0, ':');
    if cut == 0 {
        return Err(Error::FailedInitialization(String::from_str("empty address")));
    }
    let address = endpoint.substring_char(0, cut).to_owned();
    if cut == len {
        return Ok((address, 22));
    }
    let ghost digits = endpoint@.subrange(cut + 1, endpoint@.len() as int);
    match parse_u64_prefix(endpoint, cut + 1) {
        Some(parsed) => {
            let value = parsed.0;
            let end = parsed.1;
            if end != len || value > 65535 {
                proof {
                    if end != len {
                        assert(!spec_is_digit(endpoint@[end as int]));
                        assert(digits[end - cut - 1] == endpoint@[end as int]);
                    } else {
                        assert(digits =~= endpoint@.subrange(cut + 1, end as int));
                    }
                }
                return Err(Error::FailedInitialization(String::from_str(
                    "failure to parse given port",
                )));
            }
            proof {
                assert(digits =~= endpoint@.subrange(cut + 1, end as int));
                assert(forall|k: int| 0 <= k < digits.len() ==> spec_is_digit(digits[k]));
            }
            Ok((address, value as u16))
        },
        None => {
            proof {
                if cut + 1 < endpoint@.len() && spec_is_digit(endpoint@[cut as int + 1]) {
                    let run = crate::util::spec_digits_prefix_len(endpoint@.skip(cut as int + 1));
                    crate::util::lemma_digits_prefix_len_bounds(endpoint@, cut as int + 1);
                    if spec_endpoint_ok(endpoint@) {
                        assert forall|k: int|
                            cut + 1 <= k < endpoint@.len() implies spec_is_digit(
                            endpoint@[k],
                        ) by {
                            assert(digits[k - cut - 1] == endpoint@[k]);
                        }
                        crate::util::lemma_digits_prefix_covers(
                            endpoint@,
                            cut as int + 1,
                            endpoint@.len() as int,
                        );
                        assert(digits =~= endpoint@.subrange(
                            cut as int + 1,
                            cut as int + 1 + run,
                        ));
                        assert(false);
                    }
                } else {
                    if cut + 1 < endpoint@.len() {
                        assert(digits[0] == endpoint@[cut as int + 1]);
                    }
                }
            }
            Err(Error::FailedInitialization(String::from_str("failure to parse given port")))
        },
    }
}

/// The probe that `is_this_command_available` sends: `command -v <cmd>`.
pub open spec fn spec_availability_probe(cmd: Seq<char>) -> Seq<char> {
    "command -v "@ + cmd
}

/// Whether `command` resolves on the host: runs `command -v <command>` under
/// `privilege`; availability is exit code 0, read off the result through
/// [`CommandResult::is_success`].
pub fn is_this_command_available<Handler: HostHandler>(
    handler: &mut Handler,
    command: &str,
    privilege: &Privilege,
) -> (r: Result<bool, Error>)
    ensures
        final(handler).executed() == old(handler).executed().push(
            record_of(spec_availability_probe(command@), *privilege),
        ),
{
    let mut probe = String::from_str("command -v ");
    probe.append(command);
    match handler.run_command(probe.as_str(), privilege) {
        Ok(cmd_result) => Ok(cmd_result.is_success()),
        Err(error_detail) => Err(error_detail),
    }
}

/// Declarative description of a local connection: commands are meant to run
/// on the controller itself, under `user`, through a subprocess shell. The
/// execution substrate around this description lives outside the library.
#[derive(Clone)]
pub struct LocalHostHandler {
    pub user: WhichUser,
}

impl LocalHostHandler {
    pub fn new(user: WhichUser) -> (r: LocalHostHandler)
        ensures
            r.user == user,
    {
        LocalHostHandler { user }
    }
}

/// One entry of a scripted host: the exact composed command string and the
/// result the host gives for it.
#[derive(Clone)]
pub struct ScriptedResponse {
    pub command: String,
    pub result: CommandResult,
}

/// The first response of `script` whose command equals `cmd`.
pub open spec fn spec_script_lookup(script: Seq<ScriptedResponse>, cmd: Seq<char>) -> Option<
    CommandResult,
>
    decreases script.len(),
{
    if script.len() == 0 {
        None
    } else if script[0].command@ == cmd {
        Some(script[0].result)
    } else {
        spec_script_lookup(script.skip(1), cmd)
    }
}

/// A host played back from a script: a deterministic, fully verified
/// [`HostHandler`] whose answers are a pure function of the composed command
/// string. It stands in for a live host in tests and makes the engine's
/// contracts exercisable without any I/O.
pub struct ScriptedHostHandler {
    user: WhichUser,
    connected: bool,
    script: Vec<ScriptedResponse>,
    log: Vec<ExecutedCommand>,
}

impl ScriptedHostHandler {
    pub closed spec fn spec_user(&self) -> WhichUser {
        self.user
    }

    pub closed spec fn spec_script(&self) -> Seq<ScriptedResponse> {
        self.script@
    }

    pub closed spec fn spec_log(&self) -> Seq<ExecutedCommand> {
        self.log@
    }

    pub fn new(user: WhichUser) -> (r: ScriptedHostHandler)
        ensures
            r.spec_user() == user,
            !r.connected(),
            r.spec_script() == Seq::<ScriptedResponse>::empty(),
            r.executed() == Seq::<(Seq<char>, Privilege)>::empty(),
    {
        let r = ScriptedHostHandler {
            user,
            connected: false,
            script: Vec::new(),
            log: Vec::new(),
        };
        proof {
            assert(r.executed() =~= Seq::<(Seq<char>, Privilege)>::empty());
        }
        r
    }

    /// Scripts the host's answer for one composed command string.
    pub fn respond_to(&mut self, command: &str, return_code: i32, stdout: &str)
        ensures
            final(self).spec_script().len() == old(self).spec_script().len() + 1,
            final(self).spec_script().drop_last() == old(self).spec_script(),
            final(self).spec_script().last().command@ == command@,
            final(self).spec_script().last().result.return_code == return_code,
            final(self).spec_script().last().result.stdout@ == stdout@,
            final(self).spec_script().last().result.stderr@ == Seq::<char>::empty(),
            final(self).spec_user() == old(self).spec_user(),
            final(self).connected() == old(self).connected(),
            final(self).executed() == old(self).executed(),
    {
        let response = ScriptedResponse {
            command: command.to_owned(),
            result: CommandResult {
                return_code,
                stdout: stdout.to_owned(),
                stderr: String::new(),
            },
        };
        self.script.push(response);
    }

    /// The requests this handler has served, in order.
    pub fn log(&self) -> (r: &Vec<ExecutedCommand>)
        ensures
            r@ == self.spec_log(),
    {
        &self.log
    }

    fn lookup(&self, cmd: &String) -> (r: Option<CommandResult>)
        ensures
            r == spec_script_lookup(self.spec_script(), cmd@),
    {
        let n = self.script.len();
        let mut i: usize = 0;
        proof {
            assert(self.script@.skip(0) =~= self.script@);
        }
        while i < n
            invariant
                0 <= i <= n,
                n == self.script@.len(),
                spec_script_lookup(self.script@, cmd@) == spec_script_lookup(
                    self.script@.skip(i as int),
                    cmd@,
                ),
            decreases n - i,
        {
            proof {
                assert(self.script@.skip(i as int)[0] == self.script@[i as int]);
            }
            if self.script[i].command.eq(cmd) {
                proof {
                    assert(self.script@.skip(i as int)[0].command@ == cmd@);
                }
                let found = &self.script[i].result;
                let copy = CommandResult {
                    return_code: found.return_code,
                    stdout: found.stdout.clone(),
                    stderr: found.stderr.clone(),
                };
                return Some(copy);
            }
            proof {
                assert(self.script@.skip(i as int).skip(1) =~= self.script@.skip(i as int + 1));
            }
            i = i + 1;
        }
        proof {
            assert(self.script@.skip(n as int) =~= Seq::<ScriptedResponse>::empty());
        }
        None
    }
}

impl HostHandler for ScriptedHostHandler {
    closed spec fn connected(&self) -> bool {
        self.connected
    }

    closed spec fn executed(&self) -> Seq<(Seq<char>, Privilege)> {
        self.log@.map_values(|e: ExecutedCommand| (e.command@, e.privilege))
    }

    fn connect(&mut self, endpoint: &str) -> (r: Result<(), Error>)
        ensures
            final(self).connected(),
            final(self).spec_script() == old(self).spec_script(),
            final(self).spec_user() == old(self).spec_user(),
    {
        self.connected = true;
        Ok(())
    }

    fn is_connected(&mut self) -> (r: bool) {
        self.connected
    }

    fn disconnect(&mut self) -> (r: Result<(), Error>)
        ensures
            final(self).spec_script() == old(self).spec_script(),
            final(self).spec_user() == old(self).spec_user(),
    {
        self.connected = false;
        Ok(())
    }

    /// Composes the privilege wrapper, then answers from the script; a
    /// command the script does not know fails as a dispatch failure.
    fn run_command(&mut self, command: &str, privilege: &Privilege) -> (r: Result<
        CommandResult,
        Error,
    >)
        ensures
            final(self).connected() == old(self).connected(),
            final(self).spec_script() == old(self).spec_script(),
            final(self).spec_user() == old(self).spec_user(),
            ({
                let composed = spec_final_command(command@, *privilege, old(self).spec_user());
                match spec_script_lookup(old(self).spec_script(), composed) {
                    Some(cr) => r == Ok::<CommandResult, Error>(cr),
                    None => r matches Err(e) && e matches Error::FailureToRunCommand(_),
                }
            }),
    {
        let ghost pre = self.log@;
        self.log.push(ExecutedCommand { command: command.to_owned(), privilege: *privilege });
        proof {
            assert(self.executed() =~= pre.map_values(
                |e: ExecutedCommand| (e.command@, e.privilege),
            ).push(record_of(command@, *privilege)));
        }
        let composed = final_command(command, privilege, &self.user);
        match self.lookup(&composed) {
            Some(cmd_result) => Ok(cmd_result),
            None => {
                let mut message = String::from_str("no scripted response for: ");
                message.append(composed.as_str());
                Err(Error::FailureToRunCommand(message))
            },
        }
    }
}

} // verus!
