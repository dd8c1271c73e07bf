use vstd::prelude::*;

use crate::attribute::Remediation;
use crate::compliance::{AttributeComplianceAssessment, InternalApiCallOutcome};
use crate::error::Error;
use crate::host_handler::{
    is_this_command_available, lemma_appended_only_push, lemma_appended_only_refl,
    lemma_appended_only_trans, record_of, spec_appended_only, spec_availability_probe, HostHandler,
};
use crate::privilege::Privilege;
use crate::util::{
    parse_u64_prefix, spec_dec_nat, spec_digits_prefix_len, spec_digits_value, spec_is_digit,
    u64_to_string, contains_u64,
};

verus! {

/// Whether the line is wanted in the file or not.
#[derive(Debug, Clone, Copy, PartialEq, Eq, Structural)]
pub enum LineExpectedState {
    Present,
    Absent,
}

/// Where in the file the line is wanted.
#[derive(Debug, Clone, Copy, PartialEq, Eq, Structural)]
pub enum LineExpectedPosition {
    Top,
    Bottom,
    Anywhere,
    SpecificLineNumber(u64),
}

/// The two corrective actions the line-in-file module knows: add the line
/// at a position, or delete it at every observed line number.
#[derive(Debug, Clone, PartialEq, Eq)]
pub enum LineInFileModuleInternalApiCall {
    Add(LineExpectedPosition),
    Delete(Vec<u64>),
}

/// The probe for the file's existence: `test -f <path>`.
pub open spec fn spec_file_exists_probe(path: Seq<char>) -> Seq<char> {
    "test -f "@ + path
}

/// The probe for the file's line count: `wc -l <path> | cut -f 1 -d ' '`.
pub open spec fn spec_line_count_probe(path: Seq<char>) -> Seq<char> {
    "wc -l "@ + path + " | cut -f 1 -d ' '"@
}

/// The probe for the line's occurrences: `grep -n -F -w '<line>' <path>`.
pub open spec fn spec_grep_probe(line: Seq<char>, path: Seq<char>) -> Seq<char> {
    "grep -n -F -w '"@ + line + "' "@ + path
}

/// Appending to a file that is empty (or treated as one): `echo '<line>' >> <path>`.
pub open spec fn spec_echo_append_command(line: Seq<char>, path: Seq<char>) -> Seq<char> {
    "echo '"@ + line + "' >> "@ + path
}

/// Inserting before line `n` of a non-empty file: `sed -i '<n> i <line>' <path>`.
pub open spec fn spec_sed_insert_command(n: u64, line: Seq<char>, path: Seq<char>) -> Seq<char> {
    "sed -i '"@ + spec_dec_nat(n as nat) + " i "@ + line + "' "@ + path
}

/// The `sed` script deleting the given 1-based line numbers: `L1d;L2d;…`.
pub open spec fn spec_delete_script(nums: Seq<u64>) -> Seq<char>
    decreases nums.len(),
{
    if nums.len() == 0 {
        Seq::empty()
    } else if nums.len() == 1 {
        spec_dec_nat(nums[0] as nat) + "d"@
    } else {
        spec_dec_nat(nums[0] as nat) + "d;"@ + spec_delete_script(nums.skip(1))
    }
}

/// Deleting lines: `sed -i '<script>' <path>`.
pub open spec fn spec_sed_delete_command(nums: Seq<u64>, path: Seq<char>) -> Seq<char> {
    "sed -i '"@ + spec_delete_script(nums) + "' "@ + path
}

/// The command an addition sends, decided by the observed line count: an
/// empty file takes the plain append (a specific line number other than 1
/// is out of range there and sends nothing); a non-empty file takes a sed
/// insertion at line 1 for `Top`, at the line count for `Bottom` and
/// `Anywhere`, and at the named line otherwise.
pub open spec fn spec_add_command_for(
    position: LineExpectedPosition,
    count: u64,
    line: Seq<char>,
    path: Seq<char>,
) -> Option<Seq<char>> {
    if count == 0 {
        match position {
            LineExpectedPosition::SpecificLineNumber(n) => if n == 1 {
                Some(spec_echo_append_command(line, path))
            } else {
                None
            },
            _ => Some(spec_echo_append_command(line, path)),
        }
    } else {
        let target: u64 = match position {
            LineExpectedPosition::Top => 1,
            LineExpectedPosition::Bottom => count,
            LineExpectedPosition::Anywhere => count,
            LineExpectedPosition::SpecificLineNumber(n) => n,
        };
        Some(spec_sed_insert_command(target, line, path))
    }
}

/// An element-wise copy of a vector of line numbers.
fn duplicate_u64_vec(nums: &Vec<u64>) -> (r: Vec<u64>)
    ensures
        r@ == nums@,
{
    let n = nums.len();
    let mut copy: Vec<u64> = Vec::new();
    let mut i: usize = 0;
    while i < n
        invariant
            0 <= i <= n,
            n == nums@.len(),
            copy@ == nums@.subrange(0, i as int),
        decreases n - i,
    {
        copy.push(nums[i]);
        proof {
            assert(copy@ =~= nums@.subrange(0, i as int + 1));
        }
        i = i + 1;
    }
    proof {
        assert(copy@ =~= nums@);
    }
    copy
}

/// Builds the delete script for a non-empty list of line numbers.
fn delete_script(nums: &Vec<u64>) -> (r: String)
    requires
        nums@.len() > 0,
    ensures
        r@ == spec_delete_script(nums@),
{
    let n = nums.len();
    let mut acc = String::new();
    let mut i: usize = 0;
    proof {
        assert(nums@.skip(0) =~= nums@);
        assert(acc@ + spec_delete_script(nums@.skip(0)) =~= spec_delete_script(nums@));
    }
    while i < n
        invariant
            0 <= i <= n,
            n == nums@.len(),
            acc@ + spec_delete_script(nums@.skip(i as int)) == spec_delete_script(nums@),
        decreases n - i,
    {
        let rendered = u64_to_string(nums[i]);
        acc.append(rendered.as_str());
        if i == n - 1 {
            acc.append("d");
        } else {
            acc.append("d;");
        }
        proof {
            let rest = nums@.skip(i as int);
            assert(rest[0] == nums@[i as int]);
            assert(rest.skip(1) =~= nums@.skip(i as int + 1));
            if i == n - 1 {
                assert(rest.len() == 1);
                assert(spec_delete_script(rest) == spec_dec_nat(nums@[i as int] as nat) + "d"@);
                assert(nums@.skip(i as int + 1) =~= Seq::<u64>::empty());
            } else {
                assert(spec_delete_script(rest) == spec_dec_nat(nums@[i as int] as nat) + "d;"@
                    + spec_delete_script(nums@.skip(i as int + 1)));
            }
            assert(acc@ + spec_delete_script(nums@.skip(i as int + 1)) =~= spec_delete_script(
                nums@,
            ));
        }
        i = i + 1;
    }
    proof {
        assert(nums@.skip(n as int) =~= Seq::<u64>::empty());
        assert(acc@ =~= acc@ + spec_delete_script(nums@.skip(n as int)));
    }
    acc
}

/// A concrete line-in-file action: the file, the line, what to do and the
/// privilege it runs under.
#[derive(Debug, Clone)]
pub struct LineInFileApiCall {
    pub file_path: String,
    pub line_content: String,
    pub api_call: LineInFileModuleInternalApiCall,
    pub privilege: Privilege,
}

impl LineInFileApiCall {
    /// What a successful addition did for a witnessed line count: it sent
    /// the count probe and then exactly the command the count decides, or —
    /// where the count decides none — stopped after the probe with the
    /// out-of-range failure.
    pub open spec fn spec_add_outcome_ok(
        &self,
        position: LineExpectedPosition,
        count: u64,
        pre: Seq<(Seq<char>, Privilege)>,
        post: Seq<(Seq<char>, Privilege)>,
        o: InternalApiCallOutcome,
    ) -> bool {
        match spec_add_command_for(position, count, self.line_content@, self.file_path@) {
            Some(c) => post == pre + seq![
                record_of(spec_line_count_probe(self.file_path@), self.privilege),
                record_of(c, self.privilege),
            ],
            None => post == pre.push(
                record_of(spec_line_count_probe(self.file_path@), self.privilege),
            ) && (o matches InternalApiCallOutcome::Failure(m) && m@
                == "Position value out of range (use \"bottom\" instead)"@),
        }
    }

    /// Whether two actions say the same thing; a deletion's vector counts
    /// by its contents.
    pub open spec fn spec_same_call(&self, other: &LineInFileApiCall) -> bool {
        &&& self.file_path == other.file_path
        &&& self.line_content == other.line_content
        &&& self.privilege == other.privilege
        &&& match (self.api_call, other.api_call) {
            (
                LineInFileModuleInternalApiCall::Add(p),
                LineInFileModuleInternalApiCall::Add(q),
            ) => p == q,
            (
                LineInFileModuleInternalApiCall::Delete(v),
                LineInFileModuleInternalApiCall::Delete(w),
            ) => v@ == w@,
            _ => false,
        }
    }

    /// A field-wise copy with the same content as `self`.
    pub fn duplicate(&self) -> (r: LineInFileApiCall)
        ensures
            self.spec_same_call(&r),
    {
        let api_call = match &self.api_call {
            LineInFileModuleInternalApiCall::Add(p) => LineInFileModuleInternalApiCall::Add(*p),
            LineInFileModuleInternalApiCall::Delete(nums) => {
                let copy: Vec<u64> = duplicate_u64_vec(nums);
                LineInFileModuleInternalApiCall::Delete(copy)
            },
        };
        LineInFileApiCall {
            file_path: self.file_path.clone(),
            line_content: self.line_content.clone(),
            api_call,
            privilege: self.privilege,
        }
    }

    /// The commands this action may send: the line-count probe, then the
    /// append, insert or delete command.
    pub open spec fn spec_is_own_command(&self, rec: (Seq<char>, Privilege)) -> bool {
        &&& rec.1 == self.privilege
        &&& {
            ||| rec.0 == spec_line_count_probe(self.file_path@)
            ||| rec.0 == spec_echo_append_command(self.line_content@, self.file_path@)
            ||| (exists|n: u64| rec.0 == spec_sed_insert_command(n, self.line_content@, self.file_path@))
            ||| (self.api_call matches LineInFileModuleInternalApiCall::Delete(nums) && rec.0
                == spec_sed_delete_command(nums@, self.file_path@))
        }
    }

    /// Executes this action on the host. An addition first reads the file's
    /// line count: an empty file takes a plain append (and a specific line
    /// number other than 1 fails as out of range), a non-empty one a `sed`
    /// insertion at the computed line. A deletion sends one `sed` script.
    pub fn call<Handler: HostHandler>(&self, host_handler: &mut Handler) -> (r: Result<
        InternalApiCallOutcome,
        Error,
    >)
        ensures
            spec_appended_only(
                old(host_handler).executed(),
                final(host_handler).executed(),
                |rec: (Seq<char>, Privilege)| self.spec_is_own_command(rec),
            ),
            r matches Ok(o) ==> (o matches InternalApiCallOutcome::Success || o matches
                InternalApiCallOutcome::Failure(_)),
            r matches Ok(o) ==> (self.api_call matches LineInFileModuleInternalApiCall::Add(
                position,
            ) ==> exists|count: u64|
                self.spec_add_outcome_ok(
                    position,
                    count,
                    old(host_handler).executed(),
                    final(host_handler).executed(),
                    o,
                )),
            r matches Ok(_) ==> (self.api_call matches LineInFileModuleInternalApiCall::Delete(
                nums,
            ) ==> (nums@.len() > 0 && final(host_handler).executed() == old(
                host_handler,
            ).executed().push(record_of(spec_sed_delete_command(nums@, self.file_path@), self.privilege)))),
            self.api_call matches LineInFileModuleInternalApiCall::Delete(nums) && nums@.len()
                == 0 ==> (r matches Err(e) && e matches Error::InternalLogicError(_)),
    {
        let ghost log0 = host_handler.executed();
        let ghost allowed = |rec: (Seq<char>, Privilege)| self.spec_is_own_command(rec);
        proof {
            lemma_appended_only_refl(log0, allowed);
        }
        match &self.api_call {
            LineInFileModuleInternalApiCall::Add(position) => {
                let mut count_probe = String::from_str("wc -l ");
                count_probe.append(self.file_path.as_str());
                count_probe.append(" | cut -f 1 -d ' '");
                let count_result = match host_handler.run_command(
                    count_probe.as_str(),
                    &self.privilege,
                ) {
                    Ok(res) => res,
                    Err(error_detail) => {
                        proof {
                            lemma_appended_only_push(
                                log0,
                                record_of(spec_line_count_probe(self.file_path@), self.privilege),
                                allowed,
                            );
                        }
                        return Err(error_detail);
                    },
                };
                proof {
                    lemma_appended_only_push(
                        log0,
                        record_of(spec_line_count_probe(self.file_path@), self.privilege),
                        allowed,
                    );
                }
                let count = match parse_u64_prefix(count_result.stdout.as_str(), 0) {
                    Some(parsed) => parsed.0,
                    None => {
                        return Err(Error::FailedDryRunEvaluation(String::from_str(
                            "unable to read the file's line count",
                        )));
                    },
                };
                let cmd: String = if count == 0 {
                    match position {
                        LineExpectedPosition::SpecificLineNumber(n) => {
                            if *n != 1 {
                                let outcome = InternalApiCallOutcome::Failure(
                                    String::from_str(
                                        "Position value out of range (use \"bottom\" instead)",
                                    ),
                                );
                                proof {
                                    assert(spec_add_command_for(
                                        *position,
                                        count,
                                        self.line_content@,
                                        self.file_path@,
                                    ) is None);
                                    assert(self.spec_add_outcome_ok(
                                        *position,
                                        count,
                                        log0,
                                        host_handler.executed(),
                                        outcome,
                                    ));
                                }
                                return Ok(outcome);
                            }
                            self.echo_append_command()
                        },
                        _ => self.echo_append_command(),
                    }
                } else {
                    let future_line: u64 = match position {
                        LineExpectedPosition::Top => 1,
                        LineExpectedPosition::Bottom => count,
                        LineExpectedPosition::Anywhere => count,
                        LineExpectedPosition::SpecificLineNumber(n) => *n,
                    };
                    let mut c = String::from_str("sed -i '");
                    let rendered = u64_to_string(future_line);
                    c.append(rendered.as_str());
                    c.append(" i ");
                    c.append(self.line_content.as_str());
                    c.append("' ");
                    c.append(self.file_path.as_str());
                    proof {
                        assert(c@ == spec_sed_insert_command(
                            future_line,
                            self.line_content@,
                            self.file_path@,
                        ));
                    }
                    c
                };
                proof {
                    assert(spec_add_command_for(
                        *position,
                        count,
                        self.line_content@,
                        self.file_path@,
                    ) == Some(cmd@));
                }
                let ghost mid = host_handler.executed();
                match host_handler.run_command(cmd.as_str(), &self.privilege) {
                    Ok(cmd_result) => {
                        let outcome = InternalApiCallOutcome::of_command_result(&cmd_result);
                        proof {
                            lemma_appended_only_push(mid, record_of(cmd@, self.privilege), allowed);
                            lemma_appended_only_trans(log0, mid, host_handler.executed(), allowed);
                            assert(host_handler.executed() =~= log0 + seq![
                                record_of(spec_line_count_probe(self.file_path@), self.privilege),
                                record_of(cmd@, self.privilege),
                            ]);
                            assert(self.spec_add_outcome_ok(
                                *position,
                                count,
                                log0,
                                host_handler.executed(),
                                outcome,
                            ));
                        }
                        Ok(outcome)
                    },
                    Err(error_detail) => {
                        proof {
                            lemma_appended_only_push(mid, record_of(cmd@, self.privilege), allowed);
                            lemma_appended_only_trans(log0, mid, host_handler.executed(), allowed);
                        }
                        Err(error_detail)
                    },
                }
            },
            LineInFileModuleInternalApiCall::Delete(line_numbers) => {
                if line_numbers.len() == 0 {
                    return Err(Error::InternalLogicError(String::from_str(
                        "a deletion carries at least one line number",
                    )));
                }
                let script = delete_script(line_numbers);
                let mut cmd = String::from_str("sed -i '");
                cmd.append(script.as_str());
                cmd.append("' ");
                cmd.append(self.file_path.as_str());
                proof {
                    assert(cmd@ == spec_sed_delete_command(line_numbers@, self.file_path@));
                }
                let ghost mid = host_handler.executed();
                match host_handler.run_command(cmd.as_str(), &self.privilege) {
                    Ok(cmd_result) => {
                        proof {
                            lemma_appended_only_push(mid, record_of(cmd@, self.privilege), allowed);
                        }
                        Ok(InternalApiCallOutcome::of_command_result(&cmd_result))
                    },
                    Err(error_detail) => {
                        proof {
                            lemma_appended_only_push(mid, record_of(cmd@, self.privilege), allowed);
                        }
                        Err(error_detail)
                    },
                }
            },
        }
    }

    fn echo_append_command(&self) -> (r: String)
        ensures
            r@ == spec_echo_append_command(self.line_content@, self.file_path@),
    {
        let mut c = String::from_str("echo '");
        c.append(self.line_content.as_str());
        c.append("' >> ");
        c.append(self.file_path.as_str());
        c
    }
}

/// The position after the next newline at or after `i`, or the end.
pub open spec fn spec_find_newline(s: Seq<char>, i: int) -> int
    decreases s.len() - i,
{
    if i < 0 || i >= s.len() {
        s.len() as int
    } else if s[i] == '\n' {
        i
    } else {
        spec_find_newline(s, i + 1)
    }
}

/// The 1-based line numbers `grep -n` reports, read off its output: each
/// line must start with a run of digits (the reported number); everything
/// to the next newline is the matched content. `None` when a line does not
/// start with a number that fits.
pub open spec fn spec_grep_numbers_from(s: Seq<char>, i: int) -> Option<Seq<u64>>
    decreases s.len() - i,
{
    if i < 0 || i >= s.len() {
        Some(Seq::empty())
    } else {
        let dl = spec_digits_prefix_len(s.skip(i));
        if dl == 0 {
            None
        } else if spec_digits_value(s.subrange(i, i + dl)) > u64::MAX {
            None
        } else {
            let nl = spec_find_newline(s, i);
            let next = if nl >= s.len() {
                s.len() as int
            } else {
                nl + 1
            };
            if next <= i {
                None
            } else {
                match spec_grep_numbers_from(s, next) {
                    Some(rest) => Some(
                        seq![(spec_digits_value(s.subrange(i, i + dl)) as u64)] + rest,
                    ),
                    None => None,
                }
            }
        }
    }
}

pub open spec fn spec_grep_numbers(s: Seq<char>) -> Option<Seq<u64>> {
    spec_grep_numbers_from(s, 0)
}

pub open spec fn spec_option_concat(pre: Seq<u64>, rest: Option<Seq<u64>>) -> Option<Seq<u64>> {
    match rest {
        Some(r) => Some(pre + r),
        None => None,
    }
}

fn find_newline(s: &str, from: usize) -> (r: usize)
    requires
        from <= s@.len(),
    ensures
        r == spec_find_newline(s@, from as int),
        from <= r <= s@.len(),
{
    let h = s.unicode_len();
    let mut i: usize = from;
    while i < h
        invariant
            from <= i <= h,
            h == s@.len(),
            spec_find_newline(s@, from as int) == spec_find_newline(s@, i as int),
        decreases h - i,
    {
        if s.get_char(i) == '\n' {
            return i;
        }
        i = i + 1;
    }
    h
}

/// Parses the whole `grep -n` output into its reported line numbers.
fn parse_grep_line_numbers(s: &str) -> (r: Option<Vec<u64>>)
    ensures
        match spec_grep_numbers(s@) {
            Some(ns) => r matches Some(v) && v@ == ns,
            None => r is None,
        },
{
    let h = s.unicode_len();
    let mut nums: Vec<u64> = Vec::new();
    let mut i: usize = 0;
    proof {
        if spec_grep_numbers_from(s@, 0) is Some {
            assert(nums@ + spec_grep_numbers_from(s@, 0).unwrap() =~= spec_grep_numbers_from(
                s@,
                0,
            ).unwrap());
        }
    }
    while i < h
        invariant
            0 <= i <= h,
            h == s@.len(),
            spec_option_concat(nums@, spec_grep_numbers_from(s@, i as int)) == spec_grep_numbers(
                s@,
            ),
        decreases h - i,
    {
        let parsed = match parse_u64_prefix(s, i) {
            Some(p) => p,
            None => {
                proof {
                    let dl = spec_digits_prefix_len(s@.skip(i as int));
                    assert(s@.skip(i as int)[0] == s@[i as int]);
                    assert(spec_grep_numbers_from(s@, i as int) is None);
                }
                return None;
            },
        };
        let value = parsed.0;
        let end = parsed.1;
        proof {
            crate::util::lemma_digits_prefix_exact(s@, i as int, end as int);
        }
        let nl = find_newline(s, i);
        let next: usize = if nl >= h {
            h
        } else {
            nl + 1
        };
        proof {
            let dl = spec_digits_prefix_len(s@.skip(i as int));
            assert(dl == end - i);
            assert(spec_grep_numbers_from(s@, i as int) matches Some(all) ==> all
                == seq![value] + spec_grep_numbers_from(s@, next as int).unwrap());
            if spec_grep_numbers_from(s@, next as int) is Some {
                assert(nums@.push(value) + spec_grep_numbers_from(s@, next as int).unwrap()
                    =~= nums@ + (seq![value] + spec_grep_numbers_from(s@, next as int).unwrap()));
            }
        }
        nums.push(value);
        i = next;
    }
    proof {
        assert(nums@ + Seq::<u64>::empty() =~= nums@);
    }
    Some(nums)
}

/// The declarative state of one line in one file: the path, the line, its
/// wanted presence and, optionally, where it belongs.
#[derive(Debug, Clone)]
pub struct LineInFileBlockExpectedState {
    filepath: String,
    line: Option<String>,
    state: LineExpectedState,
    position: Option<LineExpectedPosition>,
}

impl LineInFileBlockExpectedState {
    pub closed spec fn spec_filepath(&self) -> Seq<char> {
        self.filepath@
    }

    pub closed spec fn spec_filepath_string(&self) -> String {
        self.filepath
    }

    pub closed spec fn spec_line(&self) -> Option<String> {
        self.line
    }

    pub closed spec fn spec_state(&self) -> LineExpectedState {
        self.state
    }

    pub closed spec fn spec_position(&self) -> Option<LineExpectedPosition> {
        self.position
    }

    /// A block assembled from its parsed fields, as a document declares
    /// them; validation happens at build or assessment time.
    pub fn from_parts(
        filepath: String,
        line: Option<String>,
        state: LineExpectedState,
        position: Option<LineExpectedPosition>,
    ) -> (r: LineInFileBlockExpectedState)
        ensures
            r.spec_filepath_string() == filepath,
            r.spec_line() == line,
            r.spec_state() == state,
            r.spec_position() == position,
    {
        LineInFileBlockExpectedState { filepath, line, state, position }
    }

    pub fn filepath(&self) -> (r: &str)
        ensures
            r@ == self.spec_filepath(),
    {
        self.filepath.as_str()
    }

    pub fn line(&self) -> (r: &Option<String>)
        ensures
            r == self.spec_line(),
    {
        &self.line
    }

    pub fn state(&self) -> (r: LineExpectedState)
        ensures
            r == self.spec_state(),
    {
        self.state
    }

    pub fn position(&self) -> (r: &Option<LineExpectedPosition>)
        ensures
            r == self.spec_position(),
    {
        &self.position
    }

    /// The algorithm reads the line in every case, so a block without one
    /// is incoherent.
    pub open spec fn spec_is_coherent(&self) -> bool {
        self.spec_line() is Some
    }

    pub fn builder(filepath: &str, state: LineExpectedState) -> (r: LineInFileBlockExpectedState)
        ensures
            r.spec_filepath() == filepath@,
            r.spec_state() == state,
            r.spec_line() is None,
            r.spec_position() is None,
    {
        LineInFileBlockExpectedState {
            filepath: filepath.to_owned(),
            line: None,
            state,
            position: None,
        }
    }

    pub fn with_line(&mut self, line: &str) -> (r: &mut LineInFileBlockExpectedState)
        ensures
            r.spec_line() matches Some(l) && l@ == line@,
            r.spec_filepath() == old(self).spec_filepath(),
            r.spec_state() == old(self).spec_state(),
            r.spec_position() == old(self).spec_position(),
            *final(self) == *final(r),
    {
        self.line = Some(line.to_owned());
        self
    }

    pub fn with_position(&mut self, position: LineExpectedPosition) -> (r: &mut LineInFileBlockExpectedState)
        ensures
            r.spec_position() == Some(position),
            r.spec_filepath() == old(self).spec_filepath(),
            r.spec_state() == old(self).spec_state(),
            r.spec_line() == old(self).spec_line(),
            *final(self) == *final(r),
    {
        self.position = Some(position);
        self
    }

    /// Validates the declared state: a block without a line is rejected
    /// with `IncoherentExpectedState`, exactly when incoherent.
    pub fn build(&self) -> (r: Result<LineInFileBlockExpectedState, Error>)
        ensures
            r matches Ok(b) ==> b == *self && self.spec_is_coherent(),
            r matches Err(e) ==> !self.spec_is_coherent() && e matches Error::IncoherentExpectedState(_),
    {
        if self.line.is_none() {
            return Err(
                Error::IncoherentExpectedState(
                    String::from_str("a line-in-file expected state needs a 'line'"),
                ),
            );
        }
        Ok(self.duplicate())
    }

    /// A field-wise copy, equal to `self`.
    pub fn duplicate(&self) -> (r: LineInFileBlockExpectedState)
        ensures
            r == *self,
    {
        let line = match &self.line {
            Some(l) => Some(l.clone()),
            None => None,
        };
        LineInFileBlockExpectedState {
            filepath: self.filepath.clone(),
            line,
            state: self.state,
            position: self.position,
        }
    }

    /// The probes a line-in-file assessment may send, all read-only.
    pub open spec fn spec_is_probe(&self, privilege: Privilege, rec: (Seq<char>, Privilege)) -> bool {
        &&& rec.1 == privilege
        &&& {
            ||| rec.0 == spec_availability_probe("sed"@)
            ||| rec.0 == spec_file_exists_probe(self.spec_filepath())
            ||| rec.0 == spec_line_count_probe(self.spec_filepath())
            ||| (self.spec_line() matches Some(l) && rec.0 == spec_grep_probe(
                l@,
                self.spec_filepath(),
            ))
        }
    }

    /// A witnessed observation respects the position precheck: for a line
    /// wanted present at a specific line number, the number does not exceed
    /// the observed line count (assessment rejects such positions as out of
    /// range before deciding).
    pub open spec fn spec_position_within(&self, count: u64) -> bool {
        match self.spec_position() {
            Some(LineExpectedPosition::SpecificLineNumber(n)) => self.spec_state()
                == LineExpectedState::Absent || n <= count,
            _ => true,
        }
    }

    /// Whether the observation already satisfies the declared state, per
    /// the position table.
    pub open spec fn spec_entry_is_match(&self, count: u64, occ: Option<Seq<u64>>) -> bool {
        match self.spec_state() {
            LineExpectedState::Present => match occ {
                Some(list) => match self.spec_position() {
                    Some(LineExpectedPosition::Top) => list.contains(1),
                    Some(LineExpectedPosition::Bottom) => list.contains(count),
                    Some(LineExpectedPosition::SpecificLineNumber(n)) => list.contains(n),
                    Some(LineExpectedPosition::Anywhere) => list.len() != 0,
                    None => true,
                },
                None => false,
            },
            LineExpectedState::Absent => occ is None,
        }
    }

    /// The position at which a missing line is added.
    pub open spec fn spec_add_position(&self, occ: Option<Seq<u64>>) -> LineExpectedPosition {
        match occ {
            Some(_) => match self.spec_position() {
                Some(LineExpectedPosition::Top) => LineExpectedPosition::Top,
                Some(LineExpectedPosition::Bottom) => LineExpectedPosition::Bottom,
                Some(LineExpectedPosition::SpecificLineNumber(n)) =>
                    LineExpectedPosition::SpecificLineNumber(n),
                Some(LineExpectedPosition::Anywhere) => LineExpectedPosition::Bottom,
                None => LineExpectedPosition::Bottom,
            },
            None => match self.spec_position() {
                Some(p) => p,
                None => LineExpectedPosition::Bottom,
            },
        }
    }

    /// The one remediation entry of a non-matching observation.
    pub open spec fn spec_entry_ok(
        &self,
        privilege: Privilege,
        count: u64,
        occ: Option<Seq<u64>>,
        r: Remediation,
    ) -> bool {
        match self.spec_state() {
            LineExpectedState::Present => {
                r matches Remediation::LineInFile(c) && c.file_path@ == self.spec_filepath()
                    && c.line_content@ == self.spec_line().unwrap()@ && c.privilege == privilege
                    && c.api_call == LineInFileModuleInternalApiCall::Add(
                    self.spec_add_position(occ),
                )
            },
            LineExpectedState::Absent => {
                r matches Remediation::LineInFile(c) && c.file_path@ == self.spec_filepath()
                    && c.line_content@ == self.spec_line().unwrap()@ && c.privilege == privilege
                    && (c.api_call matches LineInFileModuleInternalApiCall::Delete(nums) && occ
                    matches Some(list) && nums@ == list)
            },
        }
    }

    /// What a line-in-file assessment says, as a function of the declared
    /// state and the observed line count and occurrences: `Compliant`
    /// exactly when the observation matches, otherwise one remediation.
    pub open spec fn spec_assessment_of(
        &self,
        privilege: Privilege,
        count: u64,
        occ: Option<Seq<u64>>,
        a: AttributeComplianceAssessment,
    ) -> bool {
        if self.spec_entry_is_match(count, occ) {
            a == AttributeComplianceAssessment::Compliant
        } else {
            a matches AttributeComplianceAssessment::NonCompliant(rems) && rems@.len() == 1
                && self.spec_entry_ok(privilege, count, occ, rems@[0])
        }
    }

    /// The pure decision step of a line-in-file assessment: given the
    /// observed line count and occurrence list, produce the assessment.
    pub fn decide(
        &self,
        file_line_count: u64,
        occurrences: &Option<Vec<u64>>,
        privilege: &Privilege,
    ) -> (a: AttributeComplianceAssessment)
        requires
            self.spec_is_coherent(),
        ensures
            self.spec_assessment_of(
                *privilege,
                file_line_count,
                match occurrences {
                    Some(v) => Some(v@),
                    None => None,
                },
                a,
            ),
    {
        let line = match &self.line {
            Some(l) => l,
            None => {
                return AttributeComplianceAssessment::Compliant;
            },
        };
        let matched: bool = match &self.state {
            LineExpectedState::Present => match occurrences {
                Some(list) => match &self.position {
                    Some(LineExpectedPosition::Top) => contains_u64(list, 1),
                    Some(LineExpectedPosition::Bottom) => contains_u64(list, file_line_count),
                    Some(LineExpectedPosition::SpecificLineNumber(n)) => contains_u64(list, *n),
                    Some(LineExpectedPosition::Anywhere) => list.len() != 0,
                    None => true,
                },
                None => false,
            },
            LineExpectedState::Absent => occurrences.is_none(),
        };
        if matched {
            return AttributeComplianceAssessment::Compliant;
        }
        let entry: Remediation = match &self.state {
            LineExpectedState::Present => {
                let add_position: LineExpectedPosition = match occurrences {
                    Some(_) => match &self.position {
                        Some(LineExpectedPosition::Top) => LineExpectedPosition::Top,
                        Some(LineExpectedPosition::Bottom) => LineExpectedPosition::Bottom,
                        Some(LineExpectedPosition::SpecificLineNumber(n)) =>
                            LineExpectedPosition::SpecificLineNumber(*n),
                        Some(LineExpectedPosition::Anywhere) => LineExpectedPosition::Bottom,
                        None => LineExpectedPosition::Bottom,
                    },
                    None => match &self.position {
                        Some(p) => *p,
                        None => LineExpectedPosition::Bottom,
                    },
                };
                Remediation::LineInFile(
                    LineInFileApiCall {
                        file_path: self.filepath.clone(),
                        line_content: line.clone(),
                        api_call: LineInFileModuleInternalApiCall::Add(add_position),
                        privilege: *privilege,
                    },
                )
            },
            LineExpectedState::Absent => {
                let list: Vec<u64> = match occurrences {
                    Some(v) => v.clone(),
                    None => Vec::new(),
                };
                proof {
                    assert(occurrences matches Some(v) ==> list@ == v@);
                }
                Remediation::LineInFile(
                    LineInFileApiCall {
                        file_path: self.filepath.clone(),
                        line_content: line.clone(),
                        api_call: LineInFileModuleInternalApiCall::Delete(list),
                        privilege: *privilege,
                    },
                )
            },
        };
        let mut remediations: Vec<Remediation> = Vec::new();
        remediations.push(entry);
        AttributeComplianceAssessment::NonCompliant(remediations)
    }

    /// Assesses the live host: verifies `sed` and the file are present,
    /// reads the file's line count where the line must be present (a
    /// specific position beyond it is out of range), finds the line's
    /// occurrences, and hands the observations to [`Self::decide`].
    /// Read-only: only probe commands reach the host.
    pub fn assess_compliance<Handler: HostHandler>(
        &self,
        host_handler: &mut Handler,
        privilege: &Privilege,
    ) -> (r: Result<AttributeComplianceAssessment, Error>)
        ensures
            spec_appended_only(
                old(host_handler).executed(),
                final(host_handler).executed(),
                |rec: (Seq<char>, Privilege)| self.spec_is_probe(*privilege, rec),
            ),
            r matches Ok(a) ==> exists|count: u64, occ: Option<Seq<u64>>|
                self.spec_assessment_of(*privilege, count, occ, a) && self.spec_position_within(
                    count,
                ),
            !self.spec_is_coherent() ==> r matches Err(_),
    {
        let ghost log0 = host_handler.executed();
        let ghost allowed = |rec: (Seq<char>, Privilege)| self.spec_is_probe(*privilege, rec);
        proof {
            lemma_appended_only_refl(log0, allowed);
        }
        let sed_available = match is_this_command_available(host_handler, "sed", privilege) {
            Ok(b) => b,
            Err(error_detail) => {
                proof {
                    lemma_appended_only_push(
                        log0,
                        record_of(spec_availability_probe("sed"@), *privilege),
                        allowed,
                    );
                }
                return Err(error_detail);
            },
        };
        proof {
            lemma_appended_only_push(
                log0,
                record_of(spec_availability_probe("sed"@), *privilege),
                allowed,
            );
        }
        if !sed_available {
            return Err(Error::FailedDryRunEvaluation(String::from_str(
                "Sed command not available on this host",
            )));
        }
        let ghost log1 = host_handler.executed();
        let mut exists_probe = String::from_str("test -f ");
        exists_probe.append(self.filepath.as_str());
        let file_exists = match host_handler.run_command(exists_probe.as_str(), privilege) {
            Ok(res) => res.return_code == 0,
            Err(error_detail) => {
                proof {
                    lemma_appended_only_push(
                        log1,
                        record_of(spec_file_exists_probe(self.spec_filepath()), *privilege),
                        allowed,
                    );
                    lemma_appended_only_trans(log0, log1, host_handler.executed(), allowed);
                }
                return Err(error_detail);
            },
        };
        proof {
            lemma_appended_only_push(
                log1,
                record_of(spec_file_exists_probe(self.spec_filepath()), *privilege),
                allowed,
            );
            lemma_appended_only_trans(log0, log1, host_handler.executed(), allowed);
        }
        if !file_exists {
            let mut message = self.filepath.clone();
            message.append(" not found or not a regular file");
            return Err(Error::FailedDryRunEvaluation(message));
        }
        let line = match &self.line {
            Some(l) => l,
            None => {
                return Err(
                    Error::IncoherentExpectedState(
                        String::from_str("a line-in-file expected state needs a 'line'"),
                    ),
                );
            },
        };
        let mut file_line_count: u64 = 0;
        if matches!(self.state, LineExpectedState::Present) {
            let ghost log2 = host_handler.executed();
            let mut count_probe = String::from_str("wc -l ");
            count_probe.append(self.filepath.as_str());
            count_probe.append(" | cut -f 1 -d ' '");
            let count_result = match host_handler.run_command(count_probe.as_str(), privilege) {
                Ok(res) => res,
                Err(error_detail) => {
                    proof {
                        lemma_appended_only_push(
                            log2,
                            record_of(spec_line_count_probe(self.spec_filepath()), *privilege),
                            allowed,
                        );
                        lemma_appended_only_trans(log0, log2, host_handler.executed(), allowed);
                    }
                    return Err(error_detail);
                },
            };
            proof {
                lemma_appended_only_push(
                    log2,
                    record_of(spec_line_count_probe(self.spec_filepath()), *privilege),
                    allowed,
                );
                lemma_appended_only_trans(log0, log2, host_handler.executed(), allowed);
            }
            file_line_count = match parse_u64_prefix(count_result.stdout.as_str(), 0) {
                Some(parsed) => parsed.0,
                None => {
                    return Err(Error::FailedDryRunEvaluation(String::from_str(
                        "unable to read the file's line count",
                    )));
                },
            };
            if let Some(LineExpectedPosition::SpecificLineNumber(expected_line_number)) =
                &self.position {
                if *expected_line_number > file_line_count {
                    return Err(Error::FailedDryRunEvaluation(String::from_str(
                        "Position value out of range (use \"bottom\" instead)",
                    )));
                }
            }
        }
        let ghost log3 = host_handler.executed();
        let mut grep_probe = String::from_str("grep -n -F -w '");
        grep_probe.append(line.as_str());
        grep_probe.append("' ");
        grep_probe.append(self.filepath.as_str());
        let grep_result = match host_handler.run_command(grep_probe.as_str(), privilege) {
            Ok(res) => res,
            Err(error_detail) => {
                proof {
                    lemma_appended_only_push(
                        log3,
                        record_of(
                            spec_grep_probe(self.spec_line().unwrap()@, self.spec_filepath()),
                            *privilege,
                        ),
                        allowed,
                    );
                    lemma_appended_only_trans(log0, log3, host_handler.executed(), allowed);
                }
                return Err(error_detail);
            },
        };
        proof {
            lemma_appended_only_push(
                log3,
                record_of(
                    spec_grep_probe(self.spec_line().unwrap()@, self.spec_filepath()),
                    *privilege,
                ),
                allowed,
            );
            lemma_appended_only_trans(log0, log3, host_handler.executed(), allowed);
        }
        let occurrences: Option<Vec<u64>> = if grep_result.return_code == 0 {
            match parse_grep_line_numbers(grep_result.stdout.as_str()) {
                Some(nums) => {
                    if nums.len() == 0 {
                        None
                    } else {
                        Some(nums)
                    }
                },
                None => {
                    return Err(Error::FailedDryRunEvaluation(String::from_str(
                        "unable to parse the line numbers grep reported",
                    )));
                },
            }
        } else {
            None
        };
        let assessment = self.decide(file_line_count, &occurrences, privilege);
        Ok(assessment)
    }
}

/// Convergence: any observation that matches the declared line state — the
/// line present at the wanted position, or absent everywhere — assesses
/// compliant.
pub proof fn lemma_lineinfile_convergence(
    block: LineInFileBlockExpectedState,
    privilege: Privilege,
    count: u64,
    occ: Option<Seq<u64>>,
)
    requires
        block.spec_entry_is_match(count, occ),
    ensures
        block.spec_assessment_of(privilege, count, occ, AttributeComplianceAssessment::Compliant),
{
}

/// Read-only assessment: no probe of a line-in-file assessment is one of
/// its remediation commands, so an assessment can never have executed one.
pub proof fn lemma_lineinfile_probes_are_not_remediations(
    block: LineInFileBlockExpectedState,
    call: LineInFileApiCall,
    privilege: Privilege,
    rec: (Seq<char>, Privilege),
)
    requires
        block.spec_is_probe(privilege, rec),
    ensures
        rec.0 != spec_echo_append_command(call.line_content@, call.file_path@),
        forall|n: u64| rec.0 != spec_sed_insert_command(n, call.line_content@, call.file_path@),
        (call.api_call matches LineInFileModuleInternalApiCall::Delete(nums) ==> rec.0
            != spec_sed_delete_command(nums@, call.file_path@)),
{
    reveal_strlit("command -v ");
    reveal_strlit("test -f ");
    reveal_strlit("wc -l ");
    reveal_strlit("grep -n -F -w '");
    reveal_strlit("echo '");
    reveal_strlit("sed -i '");
    assert(rec.0[0] == 'c' || rec.0[0] == 't' || rec.0[0] == 'w' || rec.0[0] == 'g');
    assert(spec_echo_append_command(call.line_content@, call.file_path@)[0] == 'e');
    assert(forall|n: u64| #[trigger] spec_sed_insert_command(
        n,
        call.line_content@,
        call.file_path@,
    )[0] == 's');
    match call.api_call {
        LineInFileModuleInternalApiCall::Delete(nums) => {
            assert(spec_sed_delete_command(nums@, call.file_path@)[0] == 's');
        },
        _ => {},
    }
}

} // verus!
