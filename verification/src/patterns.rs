//! Paint patterns: one owner type for each kind that the engine has, and the
//! dispatcher that picks the type from the engine's tag.
//!
//! A pattern that is bound to a drawing context is released by the context.
//! Its wrapper then must not release it too.

use vstd::prelude::*;
use crate::enums::PatternType;
use crate::enums::Status;
use crate::error::NullHandle;
use crate::surface::CountChange;
use crate::surface::Surface;

verus! {

/// A pattern of a kind that this layer has no wrapper for.
#[derive(Clone, Copy, Debug, PartialEq, Eq, Structural)]
pub struct UnsupportedPattern {
    pub kind: PatternType,
}

/// What the wrappers of all pattern kinds have in common.
pub trait PatternTrait: Sized {
    /// The address of the native pattern.
    spec fn ptr(&self) -> usize;

    /// Whether a drawing context has taken over the release of the pattern.
    spec fn bound(&self) -> bool;

    /// The kind of the pattern.
    spec fn kind(&self) -> PatternType;

    /// The address of the native pattern.
    fn get_ptr(&self) -> (pointer: usize)
        ensures
            pointer == self.ptr(),
    ;

    /// Whether a drawing context has taken over the release of the pattern.
    fn referenced_by_ctx(&self) -> (bound: bool)
        ensures
            bound == self.bound(),
    ;

    /// A second owner of the same native pattern, with a reference of its
    /// own and bound to no context.
    fn reference(&self) -> (shared: (Self, CountChange))
        ensures
            shared.0.ptr() == self.ptr(),
            shared.0.kind() == self.kind(),
            !shared.0.bound(),
            shared.1 == CountChange::Reference,
    ;

    /// Hands the release of the pattern over to a drawing context.
    fn reference_by_ctx(&mut self)
        ensures
            final(self).bound(),
            final(self).ptr() == old(self).ptr(),
            final(self).kind() == old(self).kind(),
    ;

    /// Takes the release of the pattern back from the drawing context.
    fn dereference_by_ctx(&mut self)
        ensures
            !final(self).bound(),
            final(self).ptr() == old(self).ptr(),
            final(self).kind() == old(self).kind(),
    ;

    /// Succeeds exactly when the engine reports no failure on the pattern,
    /// and otherwise hands out the engine's status.
    fn ensure_status(&self, status: Status) -> (checked: Result<(), Status>)
        ensures
            checked == status.spec_to_result(),
    {
        status.to_result()
    }

    /// Ends this owner, given the engine's reference count for the pattern.
    /// The reference is given up unless a drawing context is to release the
    /// pattern, or the engine holds no count for it, as it does for the
    /// patterns that stand for a failed construction.
    fn drop(self, reference_count: isize) -> (release: CountChange)
        ensures
            release == release_of(self.bound(), reference_count),
    {
        if !self.referenced_by_ctx() && reference_count > 0 {
            CountChange::Destroy
        } else {
            CountChange::Keep
        }
    }
}

/// What the end of an owner asks of the engine's count.
pub open spec fn release_of(bound: bool, reference_count: isize) -> CountChange {
    if !bound && reference_count > 0 {
        CountChange::Destroy
    } else {
        CountChange::Keep
    }
}

/// The patterns that take colour stops.
pub trait Gradient: PatternTrait {
    /// Whether `index` names one of `count` colour stops. The engine answers
    /// for any other index as it sees fit.
    fn has_color_stop(&self, count: isize, index: isize) -> (within: bool)
        ensures
            within <==> 0 <= index < count,
    {
        0 <= index && index < count
    }
}

/// A pattern of one colour.
#[derive(Debug)]
pub struct SolidPattern {
    pointer: usize,
    referenced_by_ctx: bool,
}

impl SolidPattern {
    /// Wraps a native pattern of this kind, taking over the reference that
    /// it came with, bound to no context.
    pub fn wrap(pointer: usize) -> (pattern: SolidPattern)
        ensures
            pattern.ptr() == pointer,
            !pattern.bound(),
    {
        SolidPattern { pointer, referenced_by_ctx: false }
    }
}

impl PatternTrait for SolidPattern {
    closed spec fn ptr(&self) -> usize {
        self.pointer
    }

    closed spec fn bound(&self) -> bool {
        self.referenced_by_ctx
    }

    open spec fn kind(&self) -> PatternType {
        PatternType::Solid
    }

    fn get_ptr(&self) -> (pointer: usize) {
        self.pointer
    }

    fn referenced_by_ctx(&self) -> (bound: bool) {
        self.referenced_by_ctx
    }

    fn reference(&self) -> (shared: (SolidPattern, CountChange)) {
        (SolidPattern { pointer: self.pointer, referenced_by_ctx: false }, CountChange::Reference)
    }

    fn reference_by_ctx(&mut self) {
        self.referenced_by_ctx = true;
    }

    fn dereference_by_ctx(&mut self) {
        self.referenced_by_ctx = false;
    }
}

/// A pattern that paints with the content of a surface.
#[derive(Debug)]
pub struct SurfacePattern {
    pointer: usize,
    referenced_by_ctx: bool,
}

impl SurfacePattern {
    /// Wraps a native pattern of this kind, taking over the reference that
    /// it came with, bound to no context.
    pub fn wrap(pointer: usize) -> (pattern: SurfacePattern)
        ensures
            pattern.ptr() == pointer,
            !pattern.bound(),
    {
        SurfacePattern { pointer, referenced_by_ctx: false }
    }
}

impl PatternTrait for SurfacePattern {
    closed spec fn ptr(&self) -> usize {
        self.pointer
    }

    closed spec fn bound(&self) -> bool {
        self.referenced_by_ctx
    }

    open spec fn kind(&self) -> PatternType {
        PatternType::Surface
    }

    fn get_ptr(&self) -> (pointer: usize) {
        self.pointer
    }

    fn referenced_by_ctx(&self) -> (bound: bool) {
        self.referenced_by_ctx
    }

    fn reference(&self) -> (shared: (SurfacePattern, CountChange)) {
        (SurfacePattern { pointer: self.pointer, referenced_by_ctx: false }, CountChange::Reference)
    }

    fn reference_by_ctx(&mut self) {
        self.referenced_by_ctx = true;
    }

    fn dereference_by_ctx(&mut self) {
        self.referenced_by_ctx = false;
    }
}

/// A gradient along a line.
#[derive(Debug)]
pub struct LinearGradient {
    pointer: usize,
    referenced_by_ctx: bool,
}

impl LinearGradient {
    /// Wraps a native pattern of this kind, taking over the reference that
    /// it came with, bound to no context.
    pub fn wrap(pointer: usize) -> (pattern: LinearGradient)
        ensures
            pattern.ptr() == pointer,
            !pattern.bound(),
    {
        LinearGradient { pointer, referenced_by_ctx: false }
    }
}

impl PatternTrait for LinearGradient {
    closed spec fn ptr(&self) -> usize {
        self.pointer
    }

    closed spec fn bound(&self) -> bool {
        self.referenced_by_ctx
    }

    open spec fn kind(&self) -> PatternType {
        PatternType::LinearGradient
    }

    fn get_ptr(&self) -> (pointer: usize) {
        self.pointer
    }

    fn referenced_by_ctx(&self) -> (bound: bool) {
        self.referenced_by_ctx
    }

    fn reference(&self) -> (shared: (LinearGradient, CountChange)) {
        (LinearGradient { pointer: self.pointer, referenced_by_ctx: false }, CountChange::Reference)
    }

    fn reference_by_ctx(&mut self) {
        self.referenced_by_ctx = true;
    }

    fn dereference_by_ctx(&mut self) {
        self.referenced_by_ctx = false;
    }
}

/// A gradient between two circles.
#[derive(Debug)]
pub struct RadialGradient {
    pointer: usize,
    referenced_by_ctx: bool,
}

impl RadialGradient {
    /// Wraps a native pattern of this kind, taking over the reference that
    /// it came with, bound to no context.
    pub fn wrap(pointer: usize) -> (pattern: RadialGradient)
        ensures
            pattern.ptr() == pointer,
            !pattern.bound(),
    {
        RadialGradient { pointer, referenced_by_ctx: false }
    }
}

impl PatternTrait for RadialGradient {
    closed spec fn ptr(&self) -> usize {
        self.pointer
    }

    closed spec fn bound(&self) -> bool {
        self.referenced_by_ctx
    }

    open spec fn kind(&self) -> PatternType {
        PatternType::RadialGradient
    }

    fn get_ptr(&self) -> (pointer: usize) {
        self.pointer
    }

    fn referenced_by_ctx(&self) -> (bound: bool) {
        self.referenced_by_ctx
    }

    fn reference(&self) -> (shared: (RadialGradient, CountChange)) {
        (RadialGradient { pointer: self.pointer, referenced_by_ctx: false }, CountChange::Reference)
    }

    fn reference_by_ctx(&mut self) {
        self.referenced_by_ctx = true;
    }

    fn dereference_by_ctx(&mut self) {
        self.referenced_by_ctx = false;
    }
}

/// A pattern of coloured patches.
#[derive(Debug)]
pub struct Mesh {
    pointer: usize,
    referenced_by_ctx: bool,
}

impl Mesh {
    /// Wraps a native pattern of this kind, taking over the reference that
    /// it came with, bound to no context.
    pub fn wrap(pointer: usize) -> (pattern: Mesh)
        ensures
            pattern.ptr() == pointer,
            !pattern.bound(),
    {
        Mesh { pointer, referenced_by_ctx: false }
    }
}

impl PatternTrait for Mesh {
    closed spec fn ptr(&self) -> usize {
        self.pointer
    }

    closed spec fn bound(&self) -> bool {
        self.referenced_by_ctx
    }

    open spec fn kind(&self) -> PatternType {
        PatternType::Mesh
    }

    fn get_ptr(&self) -> (pointer: usize) {
        self.pointer
    }

    fn referenced_by_ctx(&self) -> (bound: bool) {
        self.referenced_by_ctx
    }

    fn reference(&self) -> (shared: (Mesh, CountChange)) {
        (Mesh { pointer: self.pointer, referenced_by_ctx: false }, CountChange::Reference)
    }

    fn reference_by_ctx(&mut self) {
        self.referenced_by_ctx = true;
    }

    fn dereference_by_ctx(&mut self) {
        self.referenced_by_ctx = false;
    }
}

impl Gradient for LinearGradient {}

impl Gradient for RadialGradient {}

impl SurfacePattern {
    /// The surface that the pattern paints with, from what the engine
    /// answered when asked for it: a new owner with a reference of its own.
    /// A failure of the engine is handed on, and a null surface is reported
    /// as `NullPointer`.
    pub fn get_surface(&self, status: Status, surface: usize) -> (backing: Result<
        (Surface, CountChange),
        Status,
    >)
        ensures
            backing is Ok <==> status == Status::Success && surface != 0,
            backing is Ok ==> backing->Ok_0.0.ptr() == surface && backing->Ok_0.1
                == CountChange::Reference,
            status != Status::Success ==> backing is Err && backing->Err_0 == status,
            status == Status::Success && surface == 0 ==> backing is Err && backing->Err_0
                == Status::NullPointer,
    {
        match status {
            Status::Success => {},
            failed => {
                return Err(failed);
            },
        }
        match Surface::from_raw_none(surface) {
            Ok(shared) => Ok(shared),
            Err(NullHandle) => Err(Status::NullPointer),
        }
    }
}

/// One of the four corners of a mesh patch.
#[derive(Clone, Copy, Debug, PartialEq, Eq, PartialOrd, Structural)]
pub enum MeshCorner {
    MeshCorner0,
    MeshCorner1,
    MeshCorner2,
    MeshCorner3,
}

impl MeshCorner {
    /// The number by which the engine knows the corner.
    pub open spec fn spec_index(self) -> u32 {
        match self {
            MeshCorner::MeshCorner0 => 0,
            MeshCorner::MeshCorner1 => 1,
            MeshCorner::MeshCorner2 => 2,
            MeshCorner::MeshCorner3 => 3,
        }
    }

    /// The number by which the engine knows the corner.
    #[verifier::when_used_as_spec(spec_index)]
    pub fn index(self) -> (index: u32)
        ensures
            index == self.spec_index(),
            index < 4,
    {
        match self {
            MeshCorner::MeshCorner0 => 0,
            MeshCorner::MeshCorner1 => 1,
            MeshCorner::MeshCorner2 => 2,
            MeshCorner::MeshCorner3 => 3,
        }
    }

    /// The corner that the engine knows by `index`, if it is one of the four.
    pub fn from_index(index: u32) -> (corner: Option<MeshCorner>)
        ensures
            index < 4 <==> corner is Some,
            corner is Some ==> corner->Some_0.spec_index() == index,
    {
        match index {
            0 => Some(MeshCorner::MeshCorner0),
            1 => Some(MeshCorner::MeshCorner1),
            2 => Some(MeshCorner::MeshCorner2),
            3 => Some(MeshCorner::MeshCorner3),
            _ => None,
        }
    }
}

/// A pattern of any kind that this layer has a wrapper for.
#[derive(Debug)]
pub enum Pattern {
    SolidPattern(SolidPattern),
    SurfacePattern(SurfacePattern),
    LinearGradient(LinearGradient),
    RadialGradient(RadialGradient),
    Mesh(Mesh),
}

impl PatternTrait for Pattern {
    open spec fn ptr(&self) -> usize {
        match *self {
            Pattern::SolidPattern(solid) => solid.ptr(),
            Pattern::SurfacePattern(surface) => surface.ptr(),
            Pattern::LinearGradient(linear) => linear.ptr(),
            Pattern::RadialGradient(radial) => radial.ptr(),
            Pattern::Mesh(mesh) => mesh.ptr(),
        }
    }

    open spec fn bound(&self) -> bool {
        match *self {
            Pattern::SolidPattern(solid) => solid.bound(),
            Pattern::SurfacePattern(surface) => surface.bound(),
            Pattern::LinearGradient(linear) => linear.bound(),
            Pattern::RadialGradient(radial) => radial.bound(),
            Pattern::Mesh(mesh) => mesh.bound(),
        }
    }

    open spec fn kind(&self) -> PatternType {
        match *self {
            Pattern::SolidPattern(_) => PatternType::Solid,
            Pattern::SurfacePattern(_) => PatternType::Surface,
            Pattern::LinearGradient(_) => PatternType::LinearGradient,
            Pattern::RadialGradient(_) => PatternType::RadialGradient,
            Pattern::Mesh(_) => PatternType::Mesh,
        }
    }

    fn get_ptr(&self) -> (pointer: usize) {
        match self {
            Pattern::SolidPattern(solid) => solid.get_ptr(),
            Pattern::SurfacePattern(surface) => surface.get_ptr(),
            Pattern::LinearGradient(linear) => linear.get_ptr(),
            Pattern::RadialGradient(radial) => radial.get_ptr(),
            Pattern::Mesh(mesh) => mesh.get_ptr(),
        }
    }

    fn referenced_by_ctx(&self) -> (bound: bool) {
        match self {
            Pattern::SolidPattern(solid) => solid.referenced_by_ctx(),
            Pattern::SurfacePattern(surface) => surface.referenced_by_ctx(),
            Pattern::LinearGradient(linear) => linear.referenced_by_ctx(),
            Pattern::RadialGradient(radial) => radial.referenced_by_ctx(),
            Pattern::Mesh(mesh) => mesh.referenced_by_ctx(),
        }
    }

    fn reference(&self) -> (shared: (Pattern, CountChange)) {
        match self {
            Pattern::SolidPattern(solid) => {
                let (copy, change) = solid.reference();
                (Pattern::SolidPattern(copy), change)
            },
            Pattern::SurfacePattern(surface) => {
                let (copy, change) = surface.reference();
                (Pattern::SurfacePattern(copy), change)
            },
            Pattern::LinearGradient(linear) => {
                let (copy, change) = linear.reference();
                (Pattern::LinearGradient(copy), change)
            },
            Pattern::RadialGradient(radial) => {
                let (copy, change) = radial.reference();
                (Pattern::RadialGradient(copy), change)
            },
            Pattern::Mesh(mesh) => {
                let (copy, change) = mesh.reference();
                (Pattern::Mesh(copy), change)
            },
        }
    }

    fn reference_by_ctx(&mut self) {
        match self {
            Pattern::SolidPattern(solid) => solid.reference_by_ctx(),
            Pattern::SurfacePattern(surface) => surface.reference_by_ctx(),
            Pattern::LinearGradient(linear) => linear.reference_by_ctx(),
            Pattern::RadialGradient(radial) => radial.reference_by_ctx(),
            Pattern::Mesh(mesh) => mesh.reference_by_ctx(),
        }
    }

    fn dereference_by_ctx(&mut self) {
        match self {
            Pattern::SolidPattern(solid) => solid.dereference_by_ctx(),
            Pattern::SurfacePattern(surface) => surface.dereference_by_ctx(),
            Pattern::LinearGradient(linear) => linear.dereference_by_ctx(),
            Pattern::RadialGradient(radial) => radial.dereference_by_ctx(),
            Pattern::Mesh(mesh) => mesh.dereference_by_ctx(),
        }
    }
}

impl Pattern {
    /// Wraps a native pattern by its kind. See `wrap_pattern`.
    pub fn wrap(pointer: usize, pattern_type: PatternType) -> (wrapped: Result<
        Pattern,
        UnsupportedPattern,
    >)
        ensures
            pattern_type != PatternType::RasterSource <==> wrapped is Ok,
            wrapped is Ok ==> {
                &&& wrapped->Ok_0.kind() == pattern_type
                &&& wrapped->Ok_0.ptr() == pointer
                &&& !wrapped->Ok_0.bound()
            },
            wrapped is Err ==> wrapped->Err_0 == (UnsupportedPattern { kind: pattern_type }),
    {
        wrap_pattern(pointer, pattern_type)
    }

    /// The kind of the pattern.
    pub fn pattern_type(&self) -> (kind: PatternType)
        ensures
            kind == self.kind(),
            kind != PatternType::RasterSource,
    {
        match self {
            Pattern::SolidPattern(_) => PatternType::Solid,
            Pattern::SurfacePattern(_) => PatternType::Surface,
            Pattern::LinearGradient(_) => PatternType::LinearGradient,
            Pattern::RadialGradient(_) => PatternType::RadialGradient,
            Pattern::Mesh(_) => PatternType::Mesh,
        }
    }
}

/// Wraps a native pattern in the owner type of its kind, as the engine's tag
/// gives it, taking over the reference that the pattern came with. A kind
/// without an owner type is refused, and the pattern is left alone.
pub fn wrap_pattern(ptr: usize, pattern_type: PatternType) -> (wrapped: Result<
    Pattern,
    UnsupportedPattern,
>)
    ensures
        pattern_type != PatternType::RasterSource <==> wrapped is Ok,
        wrapped is Ok ==> {
            &&& wrapped->Ok_0.kind() == pattern_type
            &&& wrapped->Ok_0.ptr() == ptr
            &&& !wrapped->Ok_0.bound()
        },
        wrapped is Err ==> wrapped->Err_0 == (UnsupportedPattern { kind: pattern_type }),
{
    match pattern_type {
        PatternType::Solid => Ok(Pattern::SolidPattern(SolidPattern::wrap(ptr))),
        PatternType::Surface => Ok(Pattern::SurfacePattern(SurfacePattern::wrap(ptr))),
        PatternType::LinearGradient => Ok(Pattern::LinearGradient(LinearGradient::wrap(ptr))),
        PatternType::RadialGradient => Ok(Pattern::RadialGradient(RadialGradient::wrap(ptr))),
        PatternType::Mesh => Ok(Pattern::Mesh(Mesh::wrap(ptr))),
        PatternType::RasterSource => Err(UnsupportedPattern { kind: pattern_type }),
    }
}

} // verus!
