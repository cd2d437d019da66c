//! The options a pattern is compiled with, and the database modes.
use vstd::prelude::*;

use crate::error::Error;
use crate::constants::{
    HS_FLAG_CASELESS, HS_FLAG_DOTALL, HS_FLAG_MULTILINE, HS_FLAG_SOM_LEFTMOST, HS_FLAG_UCP,
    HS_FLAG_UTF8, HS_MODE_BLOCK, HS_MODE_STREAM, HS_MODE_VECTORED,
};

verus! {

/// A kind of database: the mode it is compiled in.
pub trait Type {
    /// The engine's mode word for this kind of database.
    spec fn spec_mode() -> u32;

    /// Returns the engine's mode word for this kind of database.
    fn mode() -> (r: u32)
        ensures
            r == Self::spec_mode(),
    ;
}

/// Block (non-streaming) databases.
pub struct Block;

/// Streaming databases.
pub struct Streaming;

/// Vectored databases.
pub struct Vectored;

impl Type for Block {
    open spec fn spec_mode() -> u32 {
        HS_MODE_BLOCK
    }

    fn mode() -> (r: u32) {
        HS_MODE_BLOCK
    }
}

impl Type for Streaming {
    open spec fn spec_mode() -> u32 {
        HS_MODE_STREAM
    }

    fn mode() -> (r: u32) {
        HS_MODE_STREAM
    }
}

impl Type for Vectored {
    open spec fn spec_mode() -> u32 {
        HS_MODE_VECTORED
    }

    fn mode() -> (r: u32) {
        HS_MODE_VECTORED
    }
}

/// The user-configurable options for compiling a regular expression.
#[derive(Clone, Debug)]
pub struct RegexOptions {
    pub expression: Option<String>,
    pub case_insensitive: bool,
    pub multi_line: bool,
    pub dot_matches_new_line: bool,
    pub unicode: bool,
}

/// The compile flags for options with the given switches: leftmost start
/// offsets and UTF-8 always, and one flag for each switch that is on.
pub open spec fn flags_of(
    case_insensitive: bool,
    multi_line: bool,
    dot_matches_new_line: bool,
    unicode: bool,
) -> u32 {
    HS_FLAG_SOM_LEFTMOST | HS_FLAG_UTF8 | (if case_insensitive {
        HS_FLAG_CASELESS
    } else {
        0
    }) | (if multi_line {
        HS_FLAG_MULTILINE
    } else {
        0
    }) | (if dot_matches_new_line {
        HS_FLAG_DOTALL
    } else {
        0
    }) | (if unicode {
        HS_FLAG_UCP
    } else {
        0
    })
}

impl Default for RegexOptions {
    /// No expression, every switch off but Unicode.
    fn default() -> (r: RegexOptions)
        ensures
            r.expression is None,
            !r.case_insensitive,
            !r.multi_line,
            !r.dot_matches_new_line,
            r.unicode,
    {
        RegexOptions {
            expression: None,
            case_insensitive: false,
            multi_line: false,
            dot_matches_new_line: false,
            unicode: true,
        }
    }
}

impl RegexOptions {
    /// Returns the flags that the expression is compiled with.
    pub fn flags(&self) -> (r: u32)
        ensures
            r == flags_of(
                self.case_insensitive,
                self.multi_line,
                self.dot_matches_new_line,
                self.unicode,
            ),
    {
        let mut flags: u32 = HS_FLAG_SOM_LEFTMOST | HS_FLAG_UTF8;
        let ghost base = flags;
        if self.case_insensitive {
            flags = flags | HS_FLAG_CASELESS;
        }
        let ghost f1 = flags;
        if self.multi_line {
            flags = flags | HS_FLAG_MULTILINE;
        }
        let ghost f2 = flags;
        if self.dot_matches_new_line {
            flags = flags | HS_FLAG_DOTALL;
        }
        let ghost f3 = flags;
        if self.unicode {
            flags = flags | HS_FLAG_UCP;
        }
        proof {
            assert(forall|x: u32| #[trigger] (x | 0u32) == x) by (bit_vector);
        }
        flags
    }

    /// Returns the expression to compile and the flags to compile it with; a
    /// compile error where no expression was given.
    pub fn expression_and_flags(&self) -> (r: Result<(&String, u32), Error>)
        ensures
            r is Err <==> self.expression is None,
            r matches Err(e) ==> e matches Error::CompilerError(m) && m@ == "missed expression"@,
            r matches Ok((e, f)) ==> self.expression == Some(*e) && f == flags_of(
                self.case_insensitive,
                self.multi_line,
                self.dot_matches_new_line,
                self.unicode,
            ),
    {
        match &self.expression {
            Some(e) => Ok((e, self.flags())),
            None => Err(Error::CompilerError("missed expression".to_owned())),
        }
    }
}

/// A configurable builder of a regular expression.
pub struct RegexBuilder(pub RegexOptions);

impl RegexBuilder {
    /// Creates a builder for the expression `pattern`, with default options.
    pub fn new(pattern: &str) -> (r: RegexBuilder)
        ensures
            r.0.expression matches Some(e) && e@ == pattern@,
            !r.0.case_insensitive,
            !r.0.multi_line,
            !r.0.dot_matches_new_line,
            r.0.unicode,
    {
        let mut builder = RegexBuilder(RegexOptions::default());
        builder.0.expression = Some(pattern.to_owned());
        builder
    }

    /// Sets the case-insensitive (`i`) switch.
    pub fn case_insensitive(&mut self, yes: bool) -> (r: &mut RegexBuilder)
        ensures
            r.0.case_insensitive == yes,
            r.0.multi_line == old(self).0.multi_line,
            r.0.dot_matches_new_line == old(self).0.dot_matches_new_line,
            r.0.unicode == old(self).0.unicode,
            r.0.expression == old(self).0.expression,
            *final(self) == *final(r),
    {
        self.0.case_insensitive = yes;
        self
    }

    /// Sets the multi-line (`m`) switch: `^` and `$` match at line boundaries.
    pub fn multi_line(&mut self, yes: bool) -> (r: &mut RegexBuilder)
        ensures
            r.0.case_insensitive == old(self).0.case_insensitive,
            r.0.multi_line == yes,
            r.0.dot_matches_new_line == old(self).0.dot_matches_new_line,
            r.0.unicode == old(self).0.unicode,
            r.0.expression == old(self).0.expression,
            *final(self) == *final(r),
    {
        self.0.multi_line = yes;
        self
    }

    /// Sets the any-character (`s`) switch: `.` also matches a newline.
    pub fn dot_matches_new_line(&mut self, yes: bool) -> (r: &mut RegexBuilder)
        ensures
            r.0.case_insensitive == old(self).0.case_insensitive,
            r.0.multi_line == old(self).0.multi_line,
            r.0.dot_matches_new_line == yes,
            r.0.unicode == old(self).0.unicode,
            r.0.expression == old(self).0.expression,
            *final(self) == *final(r),
    {
        self.0.dot_matches_new_line = yes;
        self
    }

    /// Sets the Unicode (`u`) switch.
    pub fn unicode(&mut self, yes: bool) -> (r: &mut RegexBuilder)
        ensures
            r.0.case_insensitive == old(self).0.case_insensitive,
            r.0.multi_line == old(self).0.multi_line,
            r.0.dot_matches_new_line == old(self).0.dot_matches_new_line,
            r.0.unicode == yes,
            r.0.expression == old(self).0.expression,
            *final(self) == *final(r),
    {
        self.0.unicode = yes;
        self
    }
}

} // verus!
