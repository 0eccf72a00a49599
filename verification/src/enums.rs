//! The closed domains of codes that cross the boundary to the native engine.

use vstd::prelude::*;

verus! {

/// A result code of the native engine: the one channel through which it
/// reports a failure that it detected.
#[derive(Clone, Copy, Debug, PartialEq, Eq, Structural)]
pub enum Status {
    Success,
    NoMemory,
    InvalidRestore,
    InvalidPopGroup,
    NoCurrentPoint,
    InvalidMatrix,
    InvalidStatus,
    NullPointer,
    InvalidString,
    InvalidPathData,
    ReadError,
    WriteError,
    SurfaceFinished,
    SurfaceTypeMismatch,
    PatternTypeMismatch,
    InvalidContent,
    InvalidFormat,
    InvalidVisual,
    FileNotFound,
    InvalidDash,
    InvalidDscComment,
    InvalidIndex,
    ClipNotRepresentable,
    TempFileError,
    InvalidStride,
    FontTypeMismatch,
    UserFontImmutable,
    UserFontError,
    NegativeCount,
    InvalidClusters,
    InvalidSlant,
    InvalidWeight,
    InvalidSize,
    UserFontNotImplemented,
    DeviceTypeMismatch,
    DeviceError,
    InvalidMeshConstruction,
    DeviceFinished,
    LastStatus,
}

impl Status {
    /// The member that a native code stands for, if it stands for one.
    pub open spec fn of_code(code: i32) -> Option<Status> {
        if code == 0 {
            Some(Status::Success)
        } else if code == 1 {
            Some(Status::NoMemory)
        } else if code == 2 {
            Some(Status::InvalidRestore)
        } else if code == 3 {
            Some(Status::InvalidPopGroup)
        } else if code == 4 {
            Some(Status::NoCurrentPoint)
        } else if code == 5 {
            Some(Status::InvalidMatrix)
        } else if code == 6 {
            Some(Status::InvalidStatus)
        } else if code == 7 {
            Some(Status::NullPointer)
        } else if code == 8 {
            Some(Status::InvalidString)
        } else if code == 9 {
            Some(Status::InvalidPathData)
        } else if code == 10 {
            Some(Status::ReadError)
        } else if code == 11 {
            Some(Status::WriteError)
        } else if code == 12 {
            Some(Status::SurfaceFinished)
        } else if code == 13 {
            Some(Status::SurfaceTypeMismatch)
        } else if code == 14 {
            Some(Status::PatternTypeMismatch)
        } else if code == 15 {
            Some(Status::InvalidContent)
        } else if code == 16 {
            Some(Status::InvalidFormat)
        } else if code == 17 {
            Some(Status::InvalidVisual)
        } else if code == 18 {
            Some(Status::FileNotFound)
        } else if code == 19 {
            Some(Status::InvalidDash)
        } else if code == 20 {
            Some(Status::InvalidDscComment)
        } else if code == 21 {
            Some(Status::InvalidIndex)
        } else if code == 22 {
            Some(Status::ClipNotRepresentable)
        } else if code == 23 {
            Some(Status::TempFileError)
        } else if code == 24 {
            Some(Status::InvalidStride)
        } else if code == 25 {
            Some(Status::FontTypeMismatch)
        } else if code == 26 {
            Some(Status::UserFontImmutable)
        } else if code == 27 {
            Some(Status::UserFontError)
        } else if code == 28 {
            Some(Status::NegativeCount)
        } else if code == 29 {
            Some(Status::InvalidClusters)
        } else if code == 30 {
            Some(Status::InvalidSlant)
        } else if code == 31 {
            Some(Status::InvalidWeight)
        } else if code == 32 {
            Some(Status::InvalidSize)
        } else if code == 33 {
            Some(Status::UserFontNotImplemented)
        } else if code == 34 {
            Some(Status::DeviceTypeMismatch)
        } else if code == 35 {
            Some(Status::DeviceError)
        } else if code == 36 {
            Some(Status::InvalidMeshConstruction)
        } else if code == 37 {
            Some(Status::DeviceFinished)
        } else if code == 38 {
            Some(Status::LastStatus)
        } else {
            None
        }
    }

    /// The native code of a member.
    pub open spec fn spec_code(self) -> i32 {
        match self {
            Status::Success => 0,
            Status::NoMemory => 1,
            Status::InvalidRestore => 2,
            Status::InvalidPopGroup => 3,
            Status::NoCurrentPoint => 4,
            Status::InvalidMatrix => 5,
            Status::InvalidStatus => 6,
            Status::NullPointer => 7,
            Status::InvalidString => 8,
            Status::InvalidPathData => 9,
            Status::ReadError => 10,
            Status::WriteError => 11,
            Status::SurfaceFinished => 12,
            Status::SurfaceTypeMismatch => 13,
            Status::PatternTypeMismatch => 14,
            Status::InvalidContent => 15,
            Status::InvalidFormat => 16,
            Status::InvalidVisual => 17,
            Status::FileNotFound => 18,
            Status::InvalidDash => 19,
            Status::InvalidDscComment => 20,
            Status::InvalidIndex => 21,
            Status::ClipNotRepresentable => 22,
            Status::TempFileError => 23,
            Status::InvalidStride => 24,
            Status::FontTypeMismatch => 25,
            Status::UserFontImmutable => 26,
            Status::UserFontError => 27,
            Status::NegativeCount => 28,
            Status::InvalidClusters => 29,
            Status::InvalidSlant => 30,
            Status::InvalidWeight => 31,
            Status::InvalidSize => 32,
            Status::UserFontNotImplemented => 33,
            Status::DeviceTypeMismatch => 34,
            Status::DeviceError => 35,
            Status::InvalidMeshConstruction => 36,
            Status::DeviceFinished => 37,
            Status::LastStatus => 38,
        }
    }

    pub fn from_code(code: i32) -> (member: Option<Status>)
        ensures
            member == Self::of_code(code),
    {
        match code {
            0 => Some(Status::Success),
            1 => Some(Status::NoMemory),
            2 => Some(Status::InvalidRestore),
            3 => Some(Status::InvalidPopGroup),
            4 => Some(Status::NoCurrentPoint),
            5 => Some(Status::InvalidMatrix),
            6 => Some(Status::InvalidStatus),
            7 => Some(Status::NullPointer),
            8 => Some(Status::InvalidString),
            9 => Some(Status::InvalidPathData),
            10 => Some(Status::ReadError),
            11 => Some(Status::WriteError),
            12 => Some(Status::SurfaceFinished),
            13 => Some(Status::SurfaceTypeMismatch),
            14 => Some(Status::PatternTypeMismatch),
            15 => Some(Status::InvalidContent),
            16 => Some(Status::InvalidFormat),
            17 => Some(Status::InvalidVisual),
            18 => Some(Status::FileNotFound),
            19 => Some(Status::InvalidDash),
            20 => Some(Status::InvalidDscComment),
            21 => Some(Status::InvalidIndex),
            22 => Some(Status::ClipNotRepresentable),
            23 => Some(Status::TempFileError),
            24 => Some(Status::InvalidStride),
            25 => Some(Status::FontTypeMismatch),
            26 => Some(Status::UserFontImmutable),
            27 => Some(Status::UserFontError),
            28 => Some(Status::NegativeCount),
            29 => Some(Status::InvalidClusters),
            30 => Some(Status::InvalidSlant),
            31 => Some(Status::InvalidWeight),
            32 => Some(Status::InvalidSize),
            33 => Some(Status::UserFontNotImplemented),
            34 => Some(Status::DeviceTypeMismatch),
            35 => Some(Status::DeviceError),
            36 => Some(Status::InvalidMeshConstruction),
            37 => Some(Status::DeviceFinished),
            38 => Some(Status::LastStatus),
            _ => None,
        }
    }

    #[verifier::when_used_as_spec(spec_code)]
    pub fn code(self) -> (code: i32)
        ensures
            code == self.spec_code(),
    {
        match self {
            Status::Success => 0,
            Status::NoMemory => 1,
            Status::InvalidRestore => 2,
            Status::InvalidPopGroup => 3,
            Status::NoCurrentPoint => 4,
            Status::InvalidMatrix => 5,
            Status::InvalidStatus => 6,
            Status::NullPointer => 7,
            Status::InvalidString => 8,
            Status::InvalidPathData => 9,
            Status::ReadError => 10,
            Status::WriteError => 11,
            Status::SurfaceFinished => 12,
            Status::SurfaceTypeMismatch => 13,
            Status::PatternTypeMismatch => 14,
            Status::InvalidContent => 15,
            Status::InvalidFormat => 16,
            Status::InvalidVisual => 17,
            Status::FileNotFound => 18,
            Status::InvalidDash => 19,
            Status::InvalidDscComment => 20,
            Status::InvalidIndex => 21,
            Status::ClipNotRepresentable => 22,
            Status::TempFileError => 23,
            Status::InvalidStride => 24,
            Status::FontTypeMismatch => 25,
            Status::UserFontImmutable => 26,
            Status::UserFontError => 27,
            Status::NegativeCount => 28,
            Status::InvalidClusters => 29,
            Status::InvalidSlant => 30,
            Status::InvalidWeight => 31,
            Status::InvalidSize => 32,
            Status::UserFontNotImplemented => 33,
            Status::DeviceTypeMismatch => 34,
            Status::DeviceError => 35,
            Status::InvalidMeshConstruction => 36,
            Status::DeviceFinished => 37,
            Status::LastStatus => 38,
        }
    }

    /// What a checkpoint makes of this status: success, or the status as
    /// the error.
    pub open spec fn spec_to_result(self) -> Result<(), Status> {
        if self == Status::Success {
            Ok(())
        } else {
            Err(self)
        }
    }

    /// Success, or this status as the error.
    #[verifier::when_used_as_spec(spec_to_result)]
    pub fn to_result(self) -> (checked: Result<(), Status>)
        ensures
            checked == self.spec_to_result(),
    {
        match self {
            Status::Success => Ok(()),
            other => Err(other),
        }
    }
}

/// The kind of one segment of a path, as its header record declares it.
#[derive(Clone, Copy, Debug, PartialEq, Eq, Structural)]
pub enum PathDataType {
    MoveTo,
    LineTo,
    CurveTo,
    ClosePath,
}

impl PathDataType {
    /// The kind that a native tag stands for, if it stands for one.
    pub open spec fn of_code(code: i32) -> Option<PathDataType> {
        if code == 0 {
            Some(PathDataType::MoveTo)
        } else if code == 1 {
            Some(PathDataType::LineTo)
        } else if code == 2 {
            Some(PathDataType::CurveTo)
        } else if code == 3 {
            Some(PathDataType::ClosePath)
        } else {
            None
        }
    }

    /// The native tag of a kind.
    pub open spec fn spec_code(self) -> i32 {
        match self {
            PathDataType::MoveTo => 0,
            PathDataType::LineTo => 1,
            PathDataType::CurveTo => 2,
            PathDataType::ClosePath => 3,
        }
    }

    /// How many coordinate pairs follow the header of a segment of this kind.
    pub open spec fn spec_points(self) -> int {
        match self {
            PathDataType::MoveTo => 1,
            PathDataType::LineTo => 1,
            PathDataType::CurveTo => 3,
            PathDataType::ClosePath => 0,
        }
    }

    pub fn from_code(code: i32) -> (kind: Option<PathDataType>)
        ensures
            kind == Self::of_code(code),
    {
        if code == 0 {
            Some(PathDataType::MoveTo)
        } else if code == 1 {
            Some(PathDataType::LineTo)
        } else if code == 2 {
            Some(PathDataType::CurveTo)
        } else if code == 3 {
            Some(PathDataType::ClosePath)
        } else {
            None
        }
    }

    #[verifier::when_used_as_spec(spec_code)]
    pub fn code(self) -> (code: i32)
        ensures
            code == self.spec_code(),
    {
        match self {
            PathDataType::MoveTo => 0,
            PathDataType::LineTo => 1,
            PathDataType::CurveTo => 2,
            PathDataType::ClosePath => 3,
        }
    }

    pub fn points(self) -> (n: usize)
        ensures
            n == self.spec_points(),
    {
        match self {
            PathDataType::MoveTo => 1,
            PathDataType::LineTo => 1,
            PathDataType::CurveTo => 3,
            PathDataType::ClosePath => 0,
        }
    }
}

/// The codes and the members of this domain stand one for one: a member's
/// code stands for that member, and a code that stands for a member is that
/// member's code.
pub proof fn lemma_status_codes_are_exact(member: Status, code: i32)
    ensures
        Status::of_code(member.spec_code()) == Some(member),
        Status::of_code(code) == Some(member) ==> member.spec_code() == code,
{
}

/// The kind of a surface, as the engine reports it.
#[derive(Clone, Copy, Debug, PartialEq, Eq, Structural)]
pub enum SurfaceType {
    Image,
    Pdf,
    Ps,
    Xlib,
    Xcb,
    Glitz,
    Quartz,
    Win32,
    BeOs,
    DirectFb,
    Svg,
    Os2,
    Win32Printing,
    QuartzImage,
    Script,
    Qt,
    Recording,
    Vg,
    Gl,
    Drm,
    Tee,
    Xml,
    Skia,
    Subsurface,
    Cogl,
}

impl SurfaceType {
    /// The member that a native code stands for, if it stands for one.
    pub open spec fn of_code(code: i32) -> Option<SurfaceType> {
        if code == 0 {
            Some(SurfaceType::Image)
        } else if code == 1 {
            Some(SurfaceType::Pdf)
        } else if code == 2 {
            Some(SurfaceType::Ps)
        } else if code == 3 {
            Some(SurfaceType::Xlib)
        } else if code == 4 {
            Some(SurfaceType::Xcb)
        } else if code == 5 {
            Some(SurfaceType::Glitz)
        } else if code == 6 {
            Some(SurfaceType::Quartz)
        } else if code == 7 {
            Some(SurfaceType::Win32)
        } else if code == 8 {
            Some(SurfaceType::BeOs)
        } else if code == 9 {
            Some(SurfaceType::DirectFb)
        } else if code == 10 {
            Some(SurfaceType::Svg)
        } else if code == 11 {
            Some(SurfaceType::Os2)
        } else if code == 12 {
            Some(SurfaceType::Win32Printing)
        } else if code == 13 {
            Some(SurfaceType::QuartzImage)
        } else if code == 14 {
            Some(SurfaceType::Script)
        } else if code == 15 {
            Some(SurfaceType::Qt)
        } else if code == 16 {
            Some(SurfaceType::Recording)
        } else if code == 17 {
            Some(SurfaceType::Vg)
        } else if code == 18 {
            Some(SurfaceType::Gl)
        } else if code == 19 {
            Some(SurfaceType::Drm)
        } else if code == 20 {
            Some(SurfaceType::Tee)
        } else if code == 21 {
            Some(SurfaceType::Xml)
        } else if code == 22 {
            Some(SurfaceType::Skia)
        } else if code == 23 {
            Some(SurfaceType::Subsurface)
        } else if code == 24 {
            Some(SurfaceType::Cogl)
        } else {
            None
        }
    }

    /// The native code of a member.
    pub open spec fn spec_code(self) -> i32 {
        match self {
            SurfaceType::Image => 0,
            SurfaceType::Pdf => 1,
            SurfaceType::Ps => 2,
            SurfaceType::Xlib => 3,
            SurfaceType::Xcb => 4,
            SurfaceType::Glitz => 5,
            SurfaceType::Quartz => 6,
            SurfaceType::Win32 => 7,
            SurfaceType::BeOs => 8,
            SurfaceType::DirectFb => 9,
            SurfaceType::Svg => 10,
            SurfaceType::Os2 => 11,
            SurfaceType::Win32Printing => 12,
            SurfaceType::QuartzImage => 13,
            SurfaceType::Script => 14,
            SurfaceType::Qt => 15,
            SurfaceType::Recording => 16,
            SurfaceType::Vg => 17,
            SurfaceType::Gl => 18,
            SurfaceType::Drm => 19,
            SurfaceType::Tee => 20,
            SurfaceType::Xml => 21,
            SurfaceType::Skia => 22,
            SurfaceType::Subsurface => 23,
            SurfaceType::Cogl => 24,
        }
    }

    pub fn from_code(code: i32) -> (member: Option<SurfaceType>)
        ensures
            member == Self::of_code(code),
    {
        match code {
            0 => Some(SurfaceType::Image),
            1 => Some(SurfaceType::Pdf),
            2 => Some(SurfaceType::Ps),
            3 => Some(SurfaceType::Xlib),
            4 => Some(SurfaceType::Xcb),
            5 => Some(SurfaceType::Glitz),
            6 => Some(SurfaceType::Quartz),
            7 => Some(SurfaceType::Win32),
            8 => Some(SurfaceType::BeOs),
            9 => Some(SurfaceType::DirectFb),
            10 => Some(SurfaceType::Svg),
            11 => Some(SurfaceType::Os2),
            12 => Some(SurfaceType::Win32Printing),
            13 => Some(SurfaceType::QuartzImage),
            14 => Some(SurfaceType::Script),
            15 => Some(SurfaceType::Qt),
            16 => Some(SurfaceType::Recording),
            17 => Some(SurfaceType::Vg),
            18 => Some(SurfaceType::Gl),
            19 => Some(SurfaceType::Drm),
            20 => Some(SurfaceType::Tee),
            21 => Some(SurfaceType::Xml),
            22 => Some(SurfaceType::Skia),
            23 => Some(SurfaceType::Subsurface),
            24 => Some(SurfaceType::Cogl),
            _ => None,
        }
    }

    #[verifier::when_used_as_spec(spec_code)]
    pub fn code(self) -> (code: i32)
        ensures
            code == self.spec_code(),
    {
        match self {
            SurfaceType::Image => 0,
            SurfaceType::Pdf => 1,
            SurfaceType::Ps => 2,
            SurfaceType::Xlib => 3,
            SurfaceType::Xcb => 4,
            SurfaceType::Glitz => 5,
            SurfaceType::Quartz => 6,
            SurfaceType::Win32 => 7,
            SurfaceType::BeOs => 8,
            SurfaceType::DirectFb => 9,
            SurfaceType::Svg => 10,
            SurfaceType::Os2 => 11,
            SurfaceType::Win32Printing => 12,
            SurfaceType::QuartzImage => 13,
            SurfaceType::Script => 14,
            SurfaceType::Qt => 15,
            SurfaceType::Recording => 16,
            SurfaceType::Vg => 17,
            SurfaceType::Gl => 18,
            SurfaceType::Drm => 19,
            SurfaceType::Tee => 20,
            SurfaceType::Xml => 21,
            SurfaceType::Skia => 22,
            SurfaceType::Subsurface => 23,
            SurfaceType::Cogl => 24,
        }
    }
}

/// The codes and the members of this domain stand one for one: a member's
/// code stands for that member, and a code that stands for a member is that
/// member's code.
pub proof fn lemma_surface_type_codes_are_exact(member: SurfaceType, code: i32)
    ensures
        SurfaceType::of_code(member.spec_code()) == Some(member),
        SurfaceType::of_code(code) == Some(member) ==> member.spec_code() == code,
{
}

/// The kind of a pattern, as the engine reports it.
#[derive(Clone, Copy, Debug, PartialEq, Eq, Structural)]
pub enum PatternType {
    Solid,
    Surface,
    LinearGradient,
    RadialGradient,
    Mesh,
    RasterSource,
}

impl PatternType {
    /// The member that a native code stands for, if it stands for one.
    pub open spec fn of_code(code: i32) -> Option<PatternType> {
        if code == 0 {
            Some(PatternType::Solid)
        } else if code == 1 {
            Some(PatternType::Surface)
        } else if code == 2 {
            Some(PatternType::LinearGradient)
        } else if code == 3 {
            Some(PatternType::RadialGradient)
        } else if code == 4 {
            Some(PatternType::Mesh)
        } else if code == 5 {
            Some(PatternType::RasterSource)
        } else {
            None
        }
    }

    /// The native code of a member.
    pub open spec fn spec_code(self) -> i32 {
        match self {
            PatternType::Solid => 0,
            PatternType::Surface => 1,
            PatternType::LinearGradient => 2,
            PatternType::RadialGradient => 3,
            PatternType::Mesh => 4,
            PatternType::RasterSource => 5,
        }
    }

    pub fn from_code(code: i32) -> (member: Option<PatternType>)
        ensures
            member == Self::of_code(code),
    {
        match code {
            0 => Some(PatternType::Solid),
            1 => Some(PatternType::Surface),
            2 => Some(PatternType::LinearGradient),
            3 => Some(PatternType::RadialGradient),
            4 => Some(PatternType::Mesh),
            5 => Some(PatternType::RasterSource),
            _ => None,
        }
    }

    #[verifier::when_used_as_spec(spec_code)]
    pub fn code(self) -> (code: i32)
        ensures
            code == self.spec_code(),
    {
        match self {
            PatternType::Solid => 0,
            PatternType::Surface => 1,
            PatternType::LinearGradient => 2,
            PatternType::RadialGradient => 3,
            PatternType::Mesh => 4,
            PatternType::RasterSource => 5,
        }
    }
}

/// The codes and the members of this domain stand one for one: a member's
/// code stands for that member, and a code that stands for a member is that
/// member's code.
pub proof fn lemma_pattern_type_codes_are_exact(member: PatternType, code: i32)
    ensures
        PatternType::of_code(member.spec_code()) == Some(member),
        PatternType::of_code(code) == Some(member) ==> member.spec_code() == code,
{
}

/// The codes and the members of this domain stand one for one: a member's
/// code stands for that member, and a code that stands for a member is that
/// member's code.
pub proof fn lemma_path_data_type_codes_are_exact(member: PathDataType, code: i32)
    ensures
        PathDataType::of_code(member.spec_code()) == Some(member),
        PathDataType::of_code(code) == Some(member) ==> member.spec_code() == code,
{
}

} // verus!
