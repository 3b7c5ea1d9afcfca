use vstd::prelude::*;

verus! {

/// The ways one build can fail. Each one names the input at fault.
#[derive(Clone, Debug)]
pub enum BuildError {
    /// A variable that build scripts always receive was not set; holds its key.
    BuildVar(String),
    /// The plugin's name contains an underscore.
    CrateName,
    /// A permission declaration file could not be parsed; holds its path.
    Parse(String),
    /// An identifier is empty or declared twice; holds the identifier.
    Validation(String),
    /// An artifact could not be written; holds its path.
    WriteFile(String),
    /// The package metadata query failed; holds its cause.
    Metadata(String),
}

/// The text that describes an error.
pub open spec fn error_text(e: BuildError) -> Seq<char> {
    match e {
        BuildError::BuildVar(key) => "expected build script env var "@ + key@
            + ", but it was not found - ensure this is called in a build script"@,
        BuildError::CrateName => "plugin names cannot contain underscores"@,
        BuildError::Parse(path) => "failed to parse permission file '"@ + path@ + "'"@,
        BuildError::Validation(id) => "invalid or duplicate identifier `"@ + id@ + "`"@,
        BuildError::WriteFile(path) => "failed to write file '"@ + path@ + "'"@,
        BuildError::Metadata(cause) => "failed to execute: "@ + cause@,
    }
}

/// What a failed build prints: the plugin's name, then the error.
pub open spec fn failure_text(name: Seq<char>, e: BuildError) -> Seq<char> {
    name + ": "@ + error_text(e)
}

impl BuildError {
    /// The text that describes this error.
    pub fn message(&self) -> (r: String)
        ensures
            r@ == error_text(*self),
    {
        match self {
            BuildError::BuildVar(key) => {
                let mut r = String::from_str("expected build script env var ");
                r.append(key.as_str());
                r.append(", but it was not found - ensure this is called in a build script");
                r
            },
            BuildError::CrateName => String::from_str("plugin names cannot contain underscores"),
            BuildError::Parse(path) => {
                let mut r = String::from_str("failed to parse permission file '");
                r.append(path.as_str());
                r.append("'");
                r
            },
            BuildError::Validation(id) => {
                let mut r = String::from_str("invalid or duplicate identifier `");
                r.append(id.as_str());
                r.append("`");
                r
            },
            BuildError::WriteFile(path) => {
                let mut r = String::from_str("failed to write file '");
                r.append(path.as_str());
                r.append("'");
                r
            },
            BuildError::Metadata(cause) => {
                let mut r = String::from_str("failed to execute: ");
                r.append(cause.as_str());
                r
            },
        }
    }
}

/// The line printed when a build fails: `<plugin-name>: <error message>`.
pub fn failure_message(name: &str, e: &BuildError) -> (r: String)
    ensures
        r@ == failure_text(name@, *e),
{
    let mut r = String::from_str(name);
    r.append(": ");
    let m = e.message();
    r.append(m.as_str());
    proof {
        assert(r@ =~= failure_text(name@, *e));
    }
    r
}

} // verus!
