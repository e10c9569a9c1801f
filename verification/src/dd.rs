//! The configuration of one run of `dd`, and the run itself as a sequence of
//! decisions: which command to run next, and what to make of its outcome.
use crate::decimal::{decimal, to_decimal};
use crate::error::{DdError, DdErrorView};
use crate::process::{
    decode, text_of, texts, Invocation, InvocationView, Outcome, OutcomeView, Phase, Step,
    StepView,
};
use crate::version::{is_older, older, parse_version, version_of};
use vstd::prelude::*;
use vstd::string::StringExecFns;

verus! {

/// The argument that gives `value` to the operand `key`: the two joined by `=`.
pub open spec fn key_value(key: Seq<char>, value: Seq<char>) -> Seq<char> {
    key + seq!['='] + value
}

/// The diagnostic of a failed copy whose own diagnostic is not valid UTF-8.
pub open spec fn unreadable_diagnostic() -> Seq<char> {
    "unable to get stderr from 'dd'"@
}

/// The configuration of one run of `dd`.
pub struct Dd {
    binary: String,
    min_version: Option<(u16, u16)>,
    input: Option<String>,
    output: Option<String>,
    options: Vec<String>,
}

/// What a [`Dd`] holds.
pub ghost struct DdView {
    /// The name or path of the binary to run.
    pub binary: Seq<char>,
    /// The oldest version of the binary that is accepted, if any is asked for.
    pub min_version: Option<(u16, u16)>,
    /// Where to copy from.
    pub input: Option<Seq<char>>,
    /// Where to copy to.
    pub output: Option<Seq<char>>,
    /// The other operands, each in the form `key=value`, in the order given.
    pub options: Seq<Seq<char>>,
}

impl DdView {
    /// This configuration with `version` as the minimum version.
    pub open spec fn with_min_version(self, version: (u16, u16)) -> DdView {
        DdView { min_version: Some(version), ..self }
    }

    /// This configuration with `input` as the input.
    pub open spec fn with_input(self, input: Seq<char>) -> DdView {
        DdView { input: Some(input), ..self }
    }

    /// This configuration with `output` as the output.
    pub open spec fn with_output(self, output: Seq<char>) -> DdView {
        DdView { output: Some(output), ..self }
    }

    /// This configuration with the operand `key=value` after its other options.
    pub open spec fn with_option(self, key: Seq<char>, value: Seq<char>) -> DdView {
        DdView { options: self.options.push(key_value(key, value)), ..self }
    }

    /// The command that asks the binary for its version.
    pub open spec fn version_query(self) -> InvocationView {
        InvocationView { program: self.binary, args: seq!["--version"@] }
    }

    /// The verdict on the binary, given the outcome of the version query.
    ///
    /// A binary that could not be started is missing. One that exited
    /// unsuccessfully cannot be run, and its standard error says why. One that
    /// exited successfully reports its version on standard output, and passes
    /// unless the version is older than the minimum asked for. Either stream
    /// must be valid UTF-8 where it is read.
    pub open spec fn check(self, outcome: OutcomeView) -> Result<(), DdErrorView> {
        match outcome {
            OutcomeView::NotStarted(_) => Err(DdErrorView::Missing),
            OutcomeView::Exited { success, stdout, stderr } => if !success {
                match text_of(stderr) {
                    Some(diagnostic) => Err(DdErrorView::CantRun(diagnostic)),
                    None => Err(DdErrorView::InvalidUTF8),
                }
            } else {
                match text_of(stdout) {
                    None => Err(DdErrorView::InvalidUTF8),
                    Some(report) => match version_of(report) {
                        None => Err(DdErrorView::InvalidOutput),
                        Some(version) => if self.min_version is Some && older(
                            version,
                            self.min_version->0,
                        ) {
                            Err(DdErrorView::OldVersion)
                        } else {
                            Ok(())
                        },
                    },
                }
            },
        }
    }

    /// The arguments of the copy: the input, then the output if there is one,
    /// then the options in the order given. Without an input there are none.
    pub open spec fn arguments(self) -> Option<Seq<Seq<char>>> {
        match self.input {
            None => None,
            Some(input) => Some(
                seq![key_value("if"@, input)] + match self.output {
                    Some(output) => seq![key_value("of"@, output)],
                    None => seq![],
                } + self.options,
            ),
        }
    }

    /// The first step of a run: the version query.
    pub open spec fn start(self) -> StepView {
        StepView::Run { phase: Phase::Check, invocation: self.version_query() }
    }

    /// The step that follows on `outcome`, the outcome of the command that was
    /// run in `phase`.
    ///
    /// After the version query the run ends with the failure of the check;
    /// where the check passes, it ends for want of an input, or else goes on to
    /// the copy. After the copy the run ends, however the copy went.
    pub open spec fn step(self, phase: Phase, outcome: OutcomeView) -> StepView {
        match phase {
            Phase::Check => match self.check(outcome) {
                Err(e) => StepView::Done(Err(e)),
                Ok(()) => match self.arguments() {
                    None => StepView::Done(Err(DdErrorView::NoInput)),
                    Some(args) => StepView::Run {
                        phase: Phase::Copy,
                        invocation: InvocationView { program: self.binary, args },
                    },
                },
            },
            Phase::Copy => StepView::Done(copied(outcome)),
        }
    }
}

/// How a run ends, given the outcome of the copy.
///
/// A copy that exited successfully gives what it wrote to standard output,
/// which must be valid UTF-8. One that exited unsuccessfully cannot be run: its
/// standard error says why, as far as it can be read. One that could not be
/// started cannot be run either, for the reason that the system gave.
pub open spec fn copied(outcome: OutcomeView) -> Result<Seq<char>, DdErrorView> {
    match outcome {
        OutcomeView::NotStarted(reason) => Err(DdErrorView::CantRun(reason)),
        OutcomeView::Exited { success, stdout, stderr } => if success {
            match text_of(stdout) {
                Some(text) => Ok(text),
                None => Err(DdErrorView::InvalidUTF8),
            }
        } else {
            match text_of(stderr) {
                Some(diagnostic) => Err(DdErrorView::CantRun(diagnostic)),
                None => Err(DdErrorView::CantRun(unreadable_diagnostic())),
            }
        },
    }
}

/// Joins `key` and `value` by `=`.
fn join(key: &str, value: &str) -> (arg: String)
    ensures
        arg@ == key_value(key@, value@),
{
    let mut arg = String::from_str(key);
    proof {
        reveal_strlit("=");
    }
    arg.append("=");
    arg.append(value);
    arg
}

impl View for Dd {
    type V = DdView;

    closed spec fn view(&self) -> DdView {
        DdView {
            binary: self.binary@,
            min_version: self.min_version,
            input: match self.input {
                Some(input) => Some(input@),
                None => None,
            },
            output: match self.output {
                Some(output) => Some(output@),
                None => None,
            },
            options: texts(self.options@),
        }
    }
}

impl Dd {
    /// A configuration for the binary `binary`, with no minimum version, no
    /// input, no output and no options.
    pub fn new(binary: &str) -> (dd: Self)
        ensures
            dd@ == (DdView {
                binary: binary@,
                min_version: None,
                input: None,
                output: None,
                options: Seq::empty(),
            }),
    {
        let dd = Dd {
            binary: String::from_str(binary),
            min_version: None,
            input: None,
            output: None,
            options: Vec::new(),
        };
        assert(texts(dd.options@) =~= Seq::empty());
        dd
    }

    /// Appends the operand `key=value` to the options.
    fn arg(&mut self, key: &str, value: &str)
        ensures
            final(self)@ == old(self)@.with_option(key@, value@),
    {
        let arg = join(key, value);
        assert(texts(self.options@.push(arg)) =~= texts(self.options@).push(arg@));
        self.options.push(arg);
    }

    /// Sets the oldest version of the binary that is accepted, as major and
    /// minor number, in place of any set before.
    pub fn min_version(&mut self, version: (u16, u16)) -> (chain: &mut Self)
        ensures
            chain@ == old(self)@.with_min_version(version),
            *final(self) == *final(chain),
    {
        self.min_version = Some(version);
        self
    }

    /// Sets where to copy from, in place of any input set before.
    pub fn input(&mut self, input: &str) -> (chain: &mut Self)
        ensures
            chain@ == old(self)@.with_input(input@),
            *final(self) == *final(chain),
    {
        self.input = Some(String::from_str(input));
        self
    }

    /// Sets where to copy to, in place of any output set before.
    pub fn output(&mut self, output: &str) -> (chain: &mut Self)
        ensures
            chain@ == old(self)@.with_output(output@),
            *final(self) == *final(chain),
    {
        self.output = Some(String::from_str(output));
        self
    }

    /// Adds the operand `bs`: the size of a block, read or written.
    pub fn bs(&mut self, value: &str) -> (chain: &mut Self)
        ensures
            chain@ == old(self)@.with_option("bs"@, value@),
            *final(self) == *final(chain),
    {
        self.arg("bs", value);
        self
    }

    /// Adds the operand `cbs`: the size of a block in a conversion.
    pub fn cbs(&mut self, value: &str) -> (chain: &mut Self)
        ensures
            chain@ == old(self)@.with_option("cbs"@, value@),
            *final(self) == *final(chain),
    {
        self.arg("cbs", value);
        self
    }

    /// Adds the operand `count`: the number of blocks to copy.
    pub fn count(&mut self, value: u64) -> (chain: &mut Self)
        ensures
            chain@ == old(self)@.with_option("count"@, decimal(value as nat)),
            *final(self) == *final(chain),
    {
        let value = to_decimal(value);
        self.arg("count", value.as_str());
        self
    }

    /// Adds the operand `seek`: the number of blocks to pass over at the start
    /// of the output.
    pub fn seek(&mut self, value: u64) -> (chain: &mut Self)
        ensures
            chain@ == old(self)@.with_option("seek"@, decimal(value as nat)),
            *final(self) == *final(chain),
    {
        let value = to_decimal(value);
        self.arg("seek", value.as_str());
        self
    }

    /// Adds the operand `skip`: the number of blocks to pass over at the start
    /// of the input.
    pub fn skip(&mut self, value: u64) -> (chain: &mut Self)
        ensures
            chain@ == old(self)@.with_option("skip"@, decimal(value as nat)),
            *final(self) == *final(chain),
    {
        let value = to_decimal(value);
        self.arg("skip", value.as_str());
        self
    }

    /// Adds the operand `status`: how much `dd` reports of its progress.
    pub fn status(&mut self, value: &str) -> (chain: &mut Self)
        ensures
            chain@ == old(self)@.with_option("status"@, value@),
            *final(self) == *final(chain),
    {
        self.arg("status", value);
        self
    }

    /// Adds the operand `conv`: the conversions to apply to the data.
    pub fn conv(&mut self, value: &str) -> (chain: &mut Self)
        ensures
            chain@ == old(self)@.with_option("conv"@, value@),
            *final(self) == *final(chain),
    {
        self.arg("conv", value);
        self
    }

    /// Adds the operand `ibs`: the size of a block read.
    pub fn ibs(&mut self, value: &str) -> (chain: &mut Self)
        ensures
            chain@ == old(self)@.with_option("ibs"@, value@),
            *final(self) == *final(chain),
    {
        self.arg("ibs", value);
        self
    }

    /// Adds the operand `iflag`: the flags under which the input is read.
    pub fn iflag(&mut self, value: &str) -> (chain: &mut Self)
        ensures
            chain@ == old(self)@.with_option("iflag"@, value@),
            *final(self) == *final(chain),
    {
        self.arg("iflag", value);
        self
    }

    /// Adds the operand `obs`: the size of a block written.
    pub fn obs(&mut self, value: &str) -> (chain: &mut Self)
        ensures
            chain@ == old(self)@.with_option("obs"@, value@),
            *final(self) == *final(chain),
    {
        self.arg("obs", value);
        self
    }

    /// Adds the operand `oflag`: the flags under which the output is written.
    pub fn oflag(&mut self, value: &str) -> (chain: &mut Self)
        ensures
            chain@ == old(self)@.with_option("oflag"@, value@),
            *final(self) == *final(chain),
    {
        self.arg("oflag", value);
        self
    }

    /// The command that asks the binary for its version.
    pub fn version_query(&self) -> (query: Invocation)
        ensures
            query@ == self@.version_query(),
    {
        let mut args: Vec<String> = Vec::new();
        args.push(String::from_str("--version"));
        assert(texts(args@) =~= seq!["--version"@]);
        Invocation { program: self.binary.clone(), args }
    }

    /// Judges the binary by the outcome of the version query.
    pub fn check(&self, outcome: Outcome) -> (verdict: Result<(), DdError>)
        ensures
            match verdict {
                Ok(()) => self@.check(outcome@) is Ok,
                Err(e) => self@.check(outcome@) == Err::<(), DdErrorView>(e@),
            },
    {
        match outcome {
            Outcome::NotStarted(_) => Err(DdError::Missing),
            Outcome::Exited { success, stdout, stderr } => {
                if !success {
                    return match decode(stderr) {
                        Some(diagnostic) => Err(DdError::CantRun(diagnostic)),
                        None => Err(DdError::InvalidUTF8),
                    };
                }
                let report = match decode(stdout) {
                    Some(report) => report,
                    None => {
                        return Err(DdError::InvalidUTF8);
                    },
                };
                let version = match parse_version(report.as_str()) {
                    Some(version) => version,
                    None => {
                        return Err(DdError::InvalidOutput);
                    },
                };
                if let Some(min_version) = self.min_version {
                    if is_older(version, min_version) {
                        return Err(DdError::OldVersion);
                    }
                }
                Ok(())
            },
        }
    }

    /// Puts together the arguments of the copy, which needs an input.
    pub fn set_args(&self) -> (args: Result<Vec<String>, DdError>)
        ensures
            match args {
                Ok(args) => self@.arguments() == Some(texts(args@)),
                Err(e) => self@.arguments() is None && e@ == DdErrorView::NoInput,
            },
    {
        let mut args: Vec<String> = Vec::new();
        if let Some(input) = &self.input {
            args.push(join("if", input.as_str()));
        } else {
            return Err(DdError::NoInput);
        }
        if let Some(output) = &self.output {
            args.push(join("of", output.as_str()));
        }
        let ghost head = texts(args@);
        let mut i: usize = 0;
        while i < self.options.len()
            invariant
                i <= self.options.len(),
                texts(args@) == head + texts(self.options@).take(i as int),
            decreases self.options.len() - i,
        {
            let option = self.options[i].clone();
            assert(texts(args@.push(option)) =~= texts(args@).push(option@));
            args.push(option);
            i += 1;
        }
        Ok(args)
    }

    /// Makes of the outcome of the copy the end of the run.
    pub fn finish(outcome: Outcome) -> (result: Result<String, DdError>)
        ensures
            crate::error::ending(result) == copied(outcome@),
    {
        match outcome {
            Outcome::NotStarted(reason) => Err(DdError::CantRun(reason)),
            Outcome::Exited { success, stdout, stderr } => {
                if success {
                    match decode(stdout) {
                        Some(text) => Ok(text),
                        None => Err(DdError::InvalidUTF8),
                    }
                } else {
                    match decode(stderr) {
                        Some(diagnostic) => Err(DdError::CantRun(diagnostic)),
                        None => Err(
                            DdError::CantRun(String::from_str("unable to get stderr from 'dd'")),
                        ),
                    }
                }
            },
        }
    }

    /// The first step of a run: the version query.
    pub fn start(&self) -> (step: Step)
        ensures
            step@ == self@.start(),
    {
        Step::Run { phase: Phase::Check, invocation: self.version_query() }
    }

    /// The step that follows on `outcome`, the outcome of the command that was
    /// run in `phase`.
    pub fn step(&self, phase: Phase, outcome: Outcome) -> (next: Step)
        ensures
            next@ == self@.step(phase, outcome@),
    {
        match phase {
            Phase::Check => match self.check(outcome) {
                Err(e) => Step::Done(Err(e)),
                Ok(()) => match self.set_args() {
                    Err(e) => Step::Done(Err(e)),
                    Ok(args) => Step::Run {
                        phase: Phase::Copy,
                        invocation: Invocation { program: self.binary.clone(), args },
                    },
                },
            },
            Phase::Copy => Step::Done(Dd::finish(outcome)),
        }
    }
}

} // verus!
