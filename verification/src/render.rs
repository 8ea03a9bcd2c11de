//! The two enumerations of the configuration surface: which terminal stage
//! renders the stream, and which reporter receives the valve's progress reports.

use vstd::prelude::*;

verus! {

/// Which reporter receives the valve's progress reports.
#[derive(Debug, Eq, PartialEq, Ord, PartialOrd, Hash, Clone, Copy, Structural)]
pub enum UnifiedSinkBinOutput {
    /// Reports are printed on standard output.
    TestPrintln,
    /// Reports are logged under the element's debug category.
    TestDebugCategory,
}

/// The kind of terminal stage that consumes the stream.
#[derive(Debug, Eq, PartialEq, Ord, PartialOrd, Hash, Clone, Copy, Structural)]
pub enum GstUnifiedSinkRenderType {
    /// A stage that discards every buffer.
    GstUnifiedsinkRenderTypeFake,
    /// Rendering on the accelerated video path.
    GstUnifiedsinkRenderTypeVideo,
    /// Rendering on the graphic plane.
    GstUnifiedsinkRenderTypeGraphic,
    /// Capture of the raw stream into a file.
    GstUnifiedsinkRenderTypeFile,
}

/// The reporter that a new controller starts with.
pub const DEFAULT_OUTPUT_TYPE: UnifiedSinkBinOutput = UnifiedSinkBinOutput::TestPrintln;

/// The terminal stage that a new controller starts with.
pub const DEFAULT_RENDER_TYPE: GstUnifiedSinkRenderType =
    GstUnifiedSinkRenderType::GstUnifiedsinkRenderTypeGraphic;

impl UnifiedSinkBinOutput {
    /// The number under which the host framework knows this reporter.
    pub open spec fn spec_value(self) -> u32 {
        match self {
            UnifiedSinkBinOutput::TestPrintln => 0,
            UnifiedSinkBinOutput::TestDebugCategory => 1,
        }
    }

    /// The reporter that a number stands for, if it stands for one.
    pub open spec fn spec_from_value(raw: u32) -> Option<UnifiedSinkBinOutput> {
        if raw == 0 {
            Some(UnifiedSinkBinOutput::TestPrintln)
        } else if raw == 1 {
            Some(UnifiedSinkBinOutput::TestDebugCategory)
        } else {
            None
        }
    }

    /// The number under which the host framework knows this reporter.
    pub fn value(self) -> (raw: u32)
        ensures
            raw == self.spec_value(),
    {
        match self {
            UnifiedSinkBinOutput::TestPrintln => 0,
            UnifiedSinkBinOutput::TestDebugCategory => 1,
        }
    }

    /// Validates a number that the host framework hands in: `None` for
    /// every number that stands for no reporter.
    pub fn from_value(raw: u32) -> (output: Option<UnifiedSinkBinOutput>)
        ensures
            output == Self::spec_from_value(raw),
    {
        if raw == 0 {
            Some(UnifiedSinkBinOutput::TestPrintln)
        } else if raw == 1 {
            Some(UnifiedSinkBinOutput::TestDebugCategory)
        } else {
            None
        }
    }
}

impl GstUnifiedSinkRenderType {
    /// The number under which the host framework knows this kind.
    pub open spec fn spec_value(self) -> u32 {
        match self {
            GstUnifiedSinkRenderType::GstUnifiedsinkRenderTypeFake => 0,
            GstUnifiedSinkRenderType::GstUnifiedsinkRenderTypeVideo => 1,
            GstUnifiedSinkRenderType::GstUnifiedsinkRenderTypeGraphic => 2,
            GstUnifiedSinkRenderType::GstUnifiedsinkRenderTypeFile => 3,
        }
    }

    /// The kind that a number stands for, if it stands for one.
    pub open spec fn spec_from_value(raw: u32) -> Option<GstUnifiedSinkRenderType> {
        if raw == 0 {
            Some(GstUnifiedSinkRenderType::GstUnifiedsinkRenderTypeFake)
        } else if raw == 1 {
            Some(GstUnifiedSinkRenderType::GstUnifiedsinkRenderTypeVideo)
        } else if raw == 2 {
            Some(GstUnifiedSinkRenderType::GstUnifiedsinkRenderTypeGraphic)
        } else if raw == 3 {
            Some(GstUnifiedSinkRenderType::GstUnifiedsinkRenderTypeFile)
        } else {
            None
        }
    }

    /// The element factory that builds a stage of this kind.
    pub open spec fn spec_factory_name(self) -> Seq<char> {
        match self {
            GstUnifiedSinkRenderType::GstUnifiedsinkRenderTypeFake => "fakesink"@,
            GstUnifiedSinkRenderType::GstUnifiedsinkRenderTypeVideo => "glimagesink"@,
            GstUnifiedSinkRenderType::GstUnifiedsinkRenderTypeGraphic => "waylandsink"@,
            GstUnifiedSinkRenderType::GstUnifiedsinkRenderTypeFile => "filesink"@,
        }
    }

    /// The number under which the host framework knows this kind.
    pub fn value(self) -> (raw: u32)
        ensures
            raw == self.spec_value(),
    {
        match self {
            GstUnifiedSinkRenderType::GstUnifiedsinkRenderTypeFake => 0,
            GstUnifiedSinkRenderType::GstUnifiedsinkRenderTypeVideo => 1,
            GstUnifiedSinkRenderType::GstUnifiedsinkRenderTypeGraphic => 2,
            GstUnifiedSinkRenderType::GstUnifiedsinkRenderTypeFile => 3,
        }
    }

    /// Validates a number that the host framework hands in: `None` for
    /// every number that stands for no kind.
    pub fn from_value(raw: u32) -> (kind: Option<GstUnifiedSinkRenderType>)
        ensures
            kind == Self::spec_from_value(raw),
    {
        if raw == 0 {
            Some(GstUnifiedSinkRenderType::GstUnifiedsinkRenderTypeFake)
        } else if raw == 1 {
            Some(GstUnifiedSinkRenderType::GstUnifiedsinkRenderTypeVideo)
        } else if raw == 2 {
            Some(GstUnifiedSinkRenderType::GstUnifiedsinkRenderTypeGraphic)
        } else if raw == 3 {
            Some(GstUnifiedSinkRenderType::GstUnifiedsinkRenderTypeFile)
        } else {
            None
        }
    }

    /// The name of the element factory that builds a stage of this kind. The
    /// host gives the built element the same name.
    pub fn factory_name(self) -> (name: &'static str)
        ensures
            name@ == self.spec_factory_name(),
    {
        match self {
            GstUnifiedSinkRenderType::GstUnifiedsinkRenderTypeFake => "fakesink",
            GstUnifiedSinkRenderType::GstUnifiedsinkRenderTypeVideo => "glimagesink",
            GstUnifiedSinkRenderType::GstUnifiedsinkRenderTypeGraphic => "waylandsink",
            GstUnifiedSinkRenderType::GstUnifiedsinkRenderTypeFile => "filesink",
        }
    }
}

/// Every kind is found again from its number, and only the numbers of the
/// four kinds stand for one: the mapping between kinds and numbers is total
/// and one to one.
pub proof fn lemma_render_type_values(kind: GstUnifiedSinkRenderType, raw: u32)
    ensures
        GstUnifiedSinkRenderType::spec_from_value(kind.spec_value()) == Some(kind),
        GstUnifiedSinkRenderType::spec_from_value(raw) is Some <==> raw < 4,
        GstUnifiedSinkRenderType::spec_from_value(raw) matches Some(k) ==> k.spec_value() == raw,
{
}

/// Every reporter is found again from its number, and only the numbers of
/// the two reporters stand for one.
pub proof fn lemma_output_values(output: UnifiedSinkBinOutput, raw: u32)
    ensures
        UnifiedSinkBinOutput::spec_from_value(output.spec_value()) == Some(output),
        UnifiedSinkBinOutput::spec_from_value(raw) is Some <==> raw < 2,
        UnifiedSinkBinOutput::spec_from_value(raw) matches Some(o) ==> o.spec_value() == raw,
{
}

} // verus!
