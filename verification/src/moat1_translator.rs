//! The translator gate: a raw task description is trimmed, read into the
//! fixed command schema, and admitted only when its target path and payload
//! pass structural checks.

use vstd::prelude::*;
use crate::text::{
    byte_len, chars_of, contains_chars, contains_seq, starts_with_chars, starts_with_seq, trim_seq,
    trim_str, utf8_len,
};

verus! {

/// Largest code payload, in bytes, that the translator admits.
pub const MAX_PAYLOAD_BYTES: usize = 65_536;

/// Longest target path, in bytes, that the translator admits.
pub const MAX_PATH_LEN: usize = 512;

/// The kinds of feature a command may ask for.
#[derive(Debug, Clone, Copy, PartialEq, Eq)]
pub enum FeatureType {
    WriteFile,
    DeployPatch,
    UpdateRoute,
}

/// A command in the strict, non-executable schema that workers accept.
#[derive(Debug, Clone)]
pub struct StructuredCommand {
    pub task_id: usize,
    pub target_feature: FeatureType,
    pub code_payload: String,
    pub target_path: String,
}

/// The stateless gate that turns raw input into a [`StructuredCommand`].
pub struct TranslatorGate;

/// Why the translator refused an input.
#[derive(Debug, Clone, Copy, PartialEq, Eq)]
pub enum TranslatorRejection {
    EmptyInput,
    SchemaInvalid,
    Traversal,
    OutsideNamespace,
    PayloadTooLarge,
    PathTooLong,
}

impl TranslatorRejection {
    /// The message the translator reports for this rejection.
    pub open spec fn text(self) -> Seq<char> {
        match self {
            TranslatorRejection::EmptyInput => "[MOAT1] Empty input rejected."@,
            TranslatorRejection::SchemaInvalid =>
                "[MOAT1] Schema validation failed. Injection/malformation blocked."@,
            TranslatorRejection::Traversal => "[MOAT1] Directory traversal attempt detected. Blocked."@,
            TranslatorRejection::OutsideNamespace =>
                "[MOAT1] Target path outside allowed ./output/ namespace. Blocked."@,
            TranslatorRejection::PayloadTooLarge => "[MOAT1] Payload exceeds 64KB ceiling. Blocked."@,
            TranslatorRejection::PathTooLong => "[MOAT1] Target path exceeds length limit. Blocked."@,
        }
    }

    /// The message the translator reports for this rejection.
    pub fn message(self) -> (m: &'static str)
        ensures
            m@ == self.text(),
    {
        match self {
            TranslatorRejection::EmptyInput => "[MOAT1] Empty input rejected.",
            TranslatorRejection::SchemaInvalid =>
                "[MOAT1] Schema validation failed. Injection/malformation blocked.",
            TranslatorRejection::Traversal => "[MOAT1] Directory traversal attempt detected. Blocked.",
            TranslatorRejection::OutsideNamespace =>
                "[MOAT1] Target path outside allowed ./output/ namespace. Blocked.",
            TranslatorRejection::PayloadTooLarge => "[MOAT1] Payload exceeds 64KB ceiling. Blocked.",
            TranslatorRejection::PathTooLong => "[MOAT1] Target path exceeds length limit. Blocked.",
        }
    }
}

/// Path fragments that betray traversal or access to sensitive system areas.
pub open spec fn dangerous_patterns() -> Seq<Seq<char>> {
    seq!["../"@, ".\\"@, "/etc"@, "/proc"@, "/sys"@, "/dev"@, "C:\\Windows"@]
}

/// Number of entries in [`dangerous_patterns`].
pub const DANGEROUS_PATTERN_COUNT: usize = 7;

/// The `i`-th dangerous path fragment.
pub fn dangerous_pattern(i: usize) -> (p: &'static str)
    requires
        i < DANGEROUS_PATTERN_COUNT,
    ensures
        p@ == dangerous_patterns()[i as int],
{
    match i {
        0 => "../",
        1 => ".\\",
        2 => "/etc",
        3 => "/proc",
        4 => "/sys",
        5 => "/dev",
        _ => "C:\\Windows",
    }
}

/// Some dangerous fragment occurs in `path`.
pub open spec fn has_dangerous_pattern(path: Seq<char>) -> bool {
    exists|i: int| 0 <= i < dangerous_patterns().len() && contains_seq(path, #[trigger] dangerous_patterns()[i])
}

/// The namespace every admitted target path must lie in.
pub open spec fn output_prefix() -> Seq<char> {
    "./output/"@
}

/// The first structural check that a parsed command fails, if any.
pub open spec fn command_rejection(c: StructuredCommand) -> Option<TranslatorRejection> {
    if has_dangerous_pattern(c.target_path@) {
        Some(TranslatorRejection::Traversal)
    } else if !starts_with_seq(c.target_path@, output_prefix()) {
        Some(TranslatorRejection::OutsideNamespace)
    } else if utf8_len(c.code_payload@) > MAX_PAYLOAD_BYTES {
        Some(TranslatorRejection::PayloadTooLarge)
    } else if utf8_len(c.target_path@) > MAX_PATH_LEN {
        Some(TranslatorRejection::PathTooLong)
    } else {
        None
    }
}

/// The translator's verdict on raw input whose trimmed text read into the schema
/// as `parsed` (`None` when it did not fit the schema).
pub open spec fn translator_rejection(raw: Seq<char>, parsed: Option<StructuredCommand>) -> Option<TranslatorRejection> {
    if trim_seq(raw).len() == 0 {
        Some(TranslatorRejection::EmptyInput)
    } else {
        match parsed {
            None => Some(TranslatorRejection::SchemaInvalid),
            Some(c) => command_rejection(c),
        }
    }
}

/// A command admitted by the translator: it targets `./output/`, names no
/// dangerous fragment, and fits both size limits.
pub open spec fn admissible(c: StructuredCommand) -> bool {
    command_rejection(c) is None
}

/// `c` with its task id replaced by `id`.
pub open spec fn with_task_id(c: StructuredCommand, id: usize) -> StructuredCommand {
    StructuredCommand { task_id: id, ..c }
}

impl TranslatorGate {
    /// The text that the schema reader is given: `raw_input` without leading
    /// or trailing whitespace.
    pub fn trim_input(raw_input: &str) -> (t: &str)
        ensures
            t@ == trim_seq(raw_input@),
    {
        trim_str(raw_input)
    }

    /// Checks a command that was read from the schema against the path and
    /// size rules.
    pub fn check_command(cmd: &StructuredCommand) -> (r: Option<TranslatorRejection>)
        ensures
            r == command_rejection(*cmd),
    {
        let path = chars_of(cmd.target_path.as_str());
        let mut i: usize = 0;
        while i < DANGEROUS_PATTERN_COUNT
            invariant
                path@ == cmd.target_path@,
                i <= DANGEROUS_PATTERN_COUNT,
                forall|j: int| 0 <= j < i ==> !contains_seq(path@, #[trigger] dangerous_patterns()[j]),
            decreases DANGEROUS_PATTERN_COUNT - i,
        {
            let pat = chars_of(dangerous_pattern(i));
            if contains_chars(&path, &pat) {
                assert(contains_seq(cmd.target_path@, dangerous_patterns()[i as int]));
                return Some(TranslatorRejection::Traversal);
            }
            i += 1;
        }
        assert(dangerous_patterns().len() == DANGEROUS_PATTERN_COUNT);
        let prefix = chars_of("./output/");
        if !starts_with_chars(&path, &prefix) {
            return Some(TranslatorRejection::OutsideNamespace);
        }
        if byte_len(cmd.code_payload.as_str()) > MAX_PAYLOAD_BYTES {
            return Some(TranslatorRejection::PayloadTooLarge);
        }
        if byte_len(cmd.target_path.as_str()) > MAX_PATH_LEN {
            return Some(TranslatorRejection::PathTooLong);
        }
        None
    }

    /// Admits or rejects a raw task description.
    ///
    /// `parsed` is the schema reading of `Self::trim_input(raw_input)`:
    /// `Some` with the command it describes, `None` when the text does not
    /// deserialize into the command schema. An admitted command
    /// carries `assigned_id` as its task id, whatever the input claimed.
    pub fn sanitize_and_translate(
        raw_input: &str,
        assigned_id: usize,
        parsed: Option<StructuredCommand>,
    ) -> (r: Result<StructuredCommand, &'static str>)
        ensures
            match r {
                Ok(c) => translator_rejection(raw_input@, parsed) is None && parsed is Some && c
                    == with_task_id(parsed->0, assigned_id),
                Err(m) => translator_rejection(raw_input@, parsed) is Some && m@ == translator_rejection(
                    raw_input@,
                    parsed,
                )->0.text(),
            },
            trim_seq(raw_input@).len() > 0 && parsed is Some && crate::laws::confined_as_written(
                parsed->0,
            ) ==> r is Ok,
    {
        proof {
            if trim_seq(raw_input@).len() > 0 && parsed is Some && crate::laws::confined_as_written(
                parsed->0,
            ) {
                crate::laws::lemma_confined_command_is_admitted(raw_input@, parsed->0);
            }
        }
        let trimmed = Self::trim_input(raw_input);
        if trimmed.is_empty() {
            return Err(TranslatorRejection::EmptyInput.message());
        }
        match parsed {
            None => Err(TranslatorRejection::SchemaInvalid.message()),
            Some(cmd) => {
                match Self::check_command(&cmd) {
                    Some(why) => Err(why.message()),
                    None => Ok(StructuredCommand { task_id: assigned_id, ..cmd }),
                }
            },
        }
    }
}

} // verus!
