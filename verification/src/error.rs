use vstd::prelude::*;
use vstd::string::StringExecFns;

verus! {

/// The error taxonomy of the build shim.
///
/// Every variant carries a human-readable context and, where one exists,
/// the text of the underlying cause, so that a build failure surfaces with
/// a composed message chain.
#[derive(Debug)]
pub enum TonicBufBuildError {
    /// A configuration file could not be opened.
    ConfigRead { path: String, cause: String },
    /// A configuration file was opened but its contents do not conform to
    /// the expected schema (malformed YAML or wrong field types).
    ConfigParse { path: String, cause: String },
    /// A subprocess could not be started.
    SubprocessLaunch { command: String, cause: String },
    /// A subprocess exited with a non-zero status; `stderr` holds the
    /// captured diagnostic text (empty where none was captured).
    SubprocessExit { command: String, code: i32, stderr: String },
    /// A subprocess produced output that is not valid text.
    OutputDecode { command: String },
    /// The code generator reported a failure.
    Generation { cause: String },
}

impl TonicBufBuildError {
    /// The composed diagnostic message of this error.
    pub open spec fn spec_message(self) -> Seq<char> {
        match self {
            TonicBufBuildError::ConfigRead { path, cause } => "failed to read "@ + path@ + ": "@
                + cause@,
            TonicBufBuildError::ConfigParse { path, cause } => "failed to deserialize "@ + path@
                + ": "@ + cause@,
            TonicBufBuildError::SubprocessLaunch { command, cause } => "failed to execute `"@
                + command@ + "': "@ + cause@,
            TonicBufBuildError::SubprocessExit { command, code, stderr } => "failed to execute `"@
                + command@ + "', it returned an error: "@ + stderr@,
            TonicBufBuildError::OutputDecode { command } => "failed to decode `"@ + command@
                + "' output"@,
            TonicBufBuildError::Generation { cause } => "error running tonic build: "@ + cause@,
        }
    }

    /// Renders the diagnostic message. A subprocess-exit message ends with
    /// the captured standard-error text, so that text is always visible in
    /// the rendered message.
    pub fn message(&self) -> (r: String)
        ensures
            r@ == self.spec_message(),
    {
        let mut s = String::new();
        match self {
            TonicBufBuildError::ConfigRead { path, cause } => {
                s.append("failed to read ");
                s.append(path.as_str());
                s.append(": ");
                s.append(cause.as_str());
            },
            TonicBufBuildError::ConfigParse { path, cause } => {
                s.append("failed to deserialize ");
                s.append(path.as_str());
                s.append(": ");
                s.append(cause.as_str());
            },
            TonicBufBuildError::SubprocessLaunch { command, cause } => {
                s.append("failed to execute `");
                s.append(command.as_str());
                s.append("': ");
                s.append(cause.as_str());
            },
            TonicBufBuildError::SubprocessExit { command, code: _, stderr } => {
                s.append("failed to execute `");
                s.append(command.as_str());
                s.append("', it returned an error: ");
                s.append(stderr.as_str());
            },
            TonicBufBuildError::OutputDecode { command } => {
                s.append("failed to decode `");
                s.append(command.as_str());
                s.append("' output");
            },
            TonicBufBuildError::Generation { cause } => {
                s.append("error running tonic build: ");
                s.append(cause.as_str());
            },
        }
        s
    }
}

/// A subprocess-exit error's message always ends with the captured
/// standard-error text, so a subprocess's own diagnostic reaches the caller
/// verbatim.
pub proof fn lemma_exit_message_carries_stderr(e: TonicBufBuildError)
    requires
        e is SubprocessExit,
    ensures
        ({
            let m = e.spec_message();
            let st = e->SubprocessExit_stderr@;
            m.len() >= st.len() && m.subrange(m.len() as int - st.len() as int, m.len() as int)
                == st
        }),
{
    let m = e.spec_message();
    let st = e->SubprocessExit_stderr@;
    assert(m.subrange(m.len() as int - st.len() as int, m.len() as int) =~= st);
}

} // verus!
