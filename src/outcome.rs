use vstd::prelude::*;

verus! {

/// Text that `String::from_utf8_lossy` makes of a byte sequence: invalid
/// sequences become U+FFFD, the rest is decoded as UTF-8.
pub uninterp spec fn lossy_text(b: Seq<u8>) -> Seq<char>;

/// Relies on `String::from_utf8_lossy`: the decoded text depends on the bytes
/// alone, and no bytes give no text.
#[verifier::external_body]
fn decode_lossy(b: &Vec<u8>) -> (r: String)
    ensures
        r@ == lossy_text(b@),
        b@.len() == 0 ==> r@.len() == 0,
{
    String::from_utf8_lossy(b.as_slice()).into_owned()
}

/// Outcome of one run of the command-line program.
#[derive(Clone, Debug)]
pub struct CommandResult {
    pub success: bool,
    pub output: String,
    pub error: Option<String>,
}

/// What a `CommandResult` holds, as mathematical text.
pub struct OutcomeView {
    pub success: bool,
    pub output: Seq<char>,
    pub error: Option<Seq<char>>,
}

pub open spec fn opt_text(o: Option<String>) -> Option<Seq<char>> {
    match o {
        Some(s) => Some(s@),
        None => None,
    }
}

impl View for CommandResult {
    type V = OutcomeView;

    open spec fn view(&self) -> OutcomeView {
        OutcomeView { success: self.success, output: self.output@, error: opt_text(self.error) }
    }
}

impl OutcomeView {
    /// The error text is present exactly when the run did not succeed.
    pub open spec fn wf(self) -> bool {
        self.error is Some <==> !self.success
    }
}

impl CommandResult {
    pub open spec fn wf(&self) -> bool {
        self@.wf()
    }

    /// A copy with the same contents.
    pub fn duplicate(&self) -> (r: CommandResult)
        ensures
            r@ == self@,
    {
        let error = match &self.error {
            Some(e) => Some(e.clone()),
            None => None,
        };
        CommandResult { success: self.success, output: self.output.clone(), error }
    }
}

/// What became of an attempt to start the program, as plain values.
pub enum LaunchReport {
    /// The program ran and exited; `success` tells whether its exit status
    /// reports success.
    Exited { success: bool, stdout: Vec<u8>, stderr: Vec<u8> },
    /// The program could not be started; `reason` describes why.
    NotLaunched { reason: String },
}

/// Prefix of the description of a launch failure.
pub open spec fn launch_failure_prefix() -> Seq<char> {
    "Failed to execute command: "@
}

/// The outcome that a launch report stands for.
pub open spec fn outcome_of(report: LaunchReport) -> OutcomeView {
    match report {
        LaunchReport::Exited { success, stdout, stderr } => OutcomeView {
            success,
            output: lossy_text(stdout@),
            error: if success {
                None
            } else {
                Some(lossy_text(stderr@))
            },
        },
        LaunchReport::NotLaunched { reason } => OutcomeView {
            success: false,
            output: Seq::empty(),
            error: Some(launch_failure_prefix() + reason@),
        },
    }
}

/// Turns what happened to one run of the program into its outcome: the
/// standard output decoded permissively, and the standard error only when the
/// run failed; a run that never started fails with a local description.
pub fn command_result(report: LaunchReport) -> (r: CommandResult)
    ensures
        r@ == outcome_of(report),
        r.wf(),
{
    match report {
        LaunchReport::Exited { success, stdout, stderr } => {
            let output = decode_lossy(&stdout);
            let error = if success {
                None
            } else {
                Some(decode_lossy(&stderr))
            };
            CommandResult { success, output, error }
        },
        LaunchReport::NotLaunched { reason } => {
            let detail = String::from_str("Failed to execute command: ").concat(reason.as_str());
            CommandResult { success: false, output: String::new(), error: Some(detail) }
        },
    }
}

/// A launch failure is reported with an empty output and a non-empty
/// description that starts with the launch-failure prefix.
pub proof fn lemma_launch_failure_described(reason: String)
    ensures
        ({
            let o = outcome_of(LaunchReport::NotLaunched { reason });
            &&& !o.success
            &&& o.output.len() == 0
            &&& o.error is Some
            &&& o.error->0.len() > 0
            &&& o.error->0.take(launch_failure_prefix().len() as int) == launch_failure_prefix()
        }),
{
    reveal_strlit("Failed to execute command: ");
    let p = launch_failure_prefix();
    assert((p + reason@).take(p.len() as int) =~= p);
}

} // verus!
