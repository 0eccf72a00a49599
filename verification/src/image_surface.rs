//! Image surfaces, and the scoped, exclusive borrow of their pixels.

use vstd::prelude::*;
use crate::enums::Status;
use crate::enums::SurfaceType;
use crate::error::BorrowError;
use crate::surface::adoption_failure;
use crate::surface::CountChange;
use crate::surface::Surface;

verus! {

/// A surface whose pixels lie in memory.
#[derive(Debug)]
pub struct ImageSurface(Surface);

/// Whether a buffer of `len` bytes holds `height` rows of `stride` bytes.
pub open spec fn data_fits(len: usize, height: i32, stride: i32) -> bool {
    0 <= height * stride <= len
}

/// The bytes that the pixels of a surface take, `stride` for each of `height`
/// rows, if both are sizes and the product is one.
pub open spec fn data_len(stride: i32, height: i32) -> Option<usize> {
    if stride >= 0 && height >= 0 && stride * height <= usize::MAX {
        Some((stride * height) as usize)
    } else {
        None
    }
}

/// Why no image surface is made over supplied storage, if none is, and the
/// change that is then due to the engine's count. Storage that is too short
/// is refused before the engine made anything. After that the constructed
/// surface decides, and then the attaching of the storage; a surface that
/// was made and cannot be used is released.
pub open spec fn creation_failure(
    len: usize,
    height: i32,
    stride: i32,
    ptr: usize,
    kind: SurfaceType,
    status: Status,
    attached: Status,
) -> Option<(Status, CountChange)> {
    if !data_fits(len, height, stride) {
        Some((Status::InvalidSize, CountChange::Keep))
    } else if adoption_failure(ptr, kind, SurfaceType::Image, status) is Some {
        adoption_failure(ptr, kind, SurfaceType::Image, status)
    } else if attached != Status::Success {
        Some((attached, CountChange::Destroy))
    } else {
        None
    }
}

/// What the checks before a borrow of the pixels come to, from what the
/// engine reports: its reference count for the surface, the surface's status
/// once it is flushed, and whether it still has pixels. The checks are made
/// in this order, and the first that fails decides. The count has to be
/// exactly one: the owner that asks, and nobody else.
pub open spec fn borrow_outcome(count: u32, status: Status, has_data: bool) -> Result<
    (),
    BorrowError,
> {
    if count != 1 {
        Err(BorrowError::NonExclusive)
    } else if status != Status::Success {
        Err(BorrowError::Cairo(status))
    } else if !has_data {
        Err(BorrowError::Cairo(Status::SurfaceFinished))
    } else {
        Ok(())
    }
}

impl ImageSurface {
    /// The surface underneath.
    pub closed spec fn surface(&self) -> Surface {
        self.0
    }

    /// The address of the native surface.
    pub open spec fn ptr(&self) -> usize {
        self.surface().ptr()
    }

    /// Takes `surface` for an image surface if the engine says it is one, and
    /// hands it back if not.
    pub fn from(surface: Surface, kind: SurfaceType) -> (image: Result<ImageSurface, Surface>)
        ensures
            kind == SurfaceType::Image ==> image is Ok && image->Ok_0.surface() == surface,
            kind != SurfaceType::Image ==> image is Err && image->Err_0 == surface,
    {
        match kind {
            SurfaceType::Image => Ok(ImageSurface(surface)),
            _ => Err(surface),
        }
    }

    /// Wraps what a constructing call of the engine returned, taking over its
    /// reference. The engine reports a failed construction through the
    /// status of what it returns, so the status is checked here: the wrapper
    /// exists only for a surface in good standing. A null address is
    /// reported as `NullPointer`, a surface of another kind as
    /// `SurfaceTypeMismatch`, and any other failure by the engine's status.
    ///
    /// A failure comes with the change that is due to the engine's count:
    /// the reference that was handed over is given up, unless there was no
    /// surface at all.
    pub fn from_raw_full(ptr: usize, kind: SurfaceType, status: Status) -> (image: Result<
        ImageSurface,
        (Status, CountChange),
    >)
        ensures
            image is Ok <==> adoption_failure(ptr, kind, SurfaceType::Image, status) is None,
            image is Ok ==> image->Ok_0.ptr() == ptr,
            image is Err ==> Some(image->Err_0) == adoption_failure(
                ptr,
                kind,
                SurfaceType::Image,
                status,
            ),
    {
        let surface = match Surface::from_raw_full(ptr) {
            Ok(surface) => surface,
            Err(_) => {
                return Err((Status::NullPointer, CountChange::Keep));
            },
        };
        let image = match ImageSurface::from(surface, kind) {
            Ok(image) => image,
            Err(other) => {
                let (_, release) = other.drop();
                return Err((Status::SurfaceTypeMismatch, release));
            },
        };
        match status {
            Status::Success => Ok(image),
            _ => {
                let (_, release) = image.into_surface().drop();
                Err((status, release))
            },
        }
    }

    /// The check before a surface is made over pixel storage that the caller
    /// supplies: the storage has to hold `height` rows of `stride` bytes.
    /// Storage that is too short is refused as `InvalidSize`, and so is a
    /// negative product.
    pub fn check_data_size(len: usize, height: i32, stride: i32) -> (checked: Result<(), Status>)
        ensures
            data_fits(len, height, stride) <==> checked is Ok,
            checked is Err ==> checked == Err::<(), Status>(Status::InvalidSize),
    {
        let rows: i64 = height as i64;
        let row: i64 = stride as i64;
        assert(-0x4000_0000_0000_0000 <= rows * row <= 0x4000_0000_0000_0000) by (nonlinear_arith)
            requires
                -0x8000_0000 <= rows <= 0x7fff_ffff,
                -0x8000_0000 <= row <= 0x7fff_ffff,
        ;
        let needed: i64 = rows * row;
        if needed < 0 {
            return Err(Status::InvalidSize);
        }
        if (needed as u64) <= (len as u64) {
            Ok(())
        } else {
            Err(Status::InvalidSize)
        }
    }

    /// Begins making an image surface over pixel storage of `len` bytes that
    /// the caller supplies: the storage has to hold `height` rows of `stride`
    /// bytes, and storage that does not is refused as `InvalidSize` before
    /// the engine is asked for anything.
    ///
    /// The steps that follow are taken in the order that the types give: the
    /// engine's constructor is called and its answer checked, then the
    /// storage is attached to the surface, so that it lives as long as the
    /// surface does, and that answer is checked.
    pub fn create_for_data(len: usize, height: i32, stride: i32) -> (begun: Result<
        DataSurface,
        Status,
    >)
        ensures
            data_fits(len, height, stride) <==> begun is Ok,
            begun is Err ==> begun->Err_0 == Status::InvalidSize,
    {
        match ImageSurface::check_data_size(len, height, stride) {
            Ok(_) => Ok(DataSurface { _checked: () }),
            Err(refused) => Err(refused),
        }
    }

    /// All steps of making an image surface over supplied storage, for given
    /// answers of the engine: the first failure decides, and comes with the
    /// change that is due to the engine's count.
    pub fn create_for_data_from(
        len: usize,
        height: i32,
        stride: i32,
        ptr: usize,
        kind: SurfaceType,
        status: Status,
        attached: Status,
    ) -> (image: Result<ImageSurface, (Status, CountChange)>)
        ensures
            image is Ok <==> creation_failure(len, height, stride, ptr, kind, status, attached)
                is None,
            image is Ok ==> image->Ok_0.ptr() == ptr,
            image is Err ==> Some(image->Err_0) == creation_failure(
                len,
                height,
                stride,
                ptr,
                kind,
                status,
                attached,
            ),
    {
        let begun = match ImageSurface::create_for_data(len, height, stride) {
            Ok(begun) => begun,
            Err(refused) => {
                return Err((refused, CountChange::Keep));
            },
        };
        let made = match begun.created(ptr, kind, status) {
            Ok(made) => made,
            Err(failed) => {
                return Err(failed);
            },
        };
        made.attached(attached)
    }

    /// Begins a borrow of the pixels. The surface stays borrowed until the
    /// checks have refused, or the view that they grant is gone.
    pub fn get_data<'a>(&'a mut self) -> (check: ExclusiveCheck<'a>)
        ensures
            check.ptr() == old(self).ptr(),
            final(self).surface() == old(self).surface(),
    {
        ExclusiveCheck { surface: &*self }
    }

    /// All checks before a borrow of the pixels, for given answers of the
    /// engine: its reference count for the surface, the status once the
    /// surface is flushed, and the pixels, if the surface still has any.
    pub fn get_data_from<'a>(
        &'a mut self,
        count: u32,
        status: Status,
        data: Option<&'a mut [u8]>,
    ) -> (borrow: Result<ImageSurfaceData<'a>, BorrowError>)
        ensures
            final(self).surface() == old(self).surface(),
            borrow is Ok <==> borrow_outcome(count, status, data is Some) is Ok,
            borrow is Err ==> borrow_outcome(count, status, data is Some) == Err::<
                (),
                BorrowError,
            >(borrow->Err_0),
            borrow is Ok ==> {
                &&& borrow->Ok_0@ == data->Some_0@
                &&& borrow->Ok_0.ptr() == old(self).ptr()
                &&& !borrow->Ok_0.is_dirty()
            },
    {
        let flush = match self.get_data().count(count) {
            Ok(flush) => flush,
            Err(refused) => {
                return Err(refused);
            },
        };
        let inspect = match flush.flushed().status(status) {
            Ok(inspect) => inspect,
            Err(refused) => {
                return Err(refused);
            },
        };
        inspect.data(data)
    }

    /// The length of the pixel memory of a surface with rows of `stride`
    /// bytes and `height` rows, if the two make a size.
    pub fn data_len(stride: i32, height: i32) -> (len: Option<usize>)
        ensures
            len == data_len(stride, height),
    {
        if stride < 0 || height < 0 {
            return None;
        }
        let row: u64 = stride as u64;
        let rows: u64 = height as u64;
        assert(row * rows <= 0x3fff_ffff_0000_0001) by (nonlinear_arith)
            requires
                row <= 0x7fff_ffff,
                rows <= 0x7fff_ffff,
        ;
        let bytes: u64 = row * rows;
        if bytes <= usize::MAX as u64 {
            Some(bytes as usize)
        } else {
            None
        }
    }

    /// The surface underneath.
    pub fn as_ref(&self) -> (surface: &Surface)
        ensures
            *surface == self.surface(),
    {
        &self.0
    }

    /// The surface underneath, with the reference that this owner held.
    pub fn into_surface(self) -> (surface: Surface)
        ensures
            surface == self.surface(),
    {
        self.0
    }

    /// A second owner of the same native surface, with a reference of its own.
    pub fn clone(&self) -> (shared: (ImageSurface, CountChange))
        ensures
            shared.0.ptr() == self.ptr(),
            shared.1 == CountChange::Reference,
    {
        let (surface, change) = self.0.clone();
        (ImageSurface(surface), change)
    }
}

/// A borrow of the pixels is granted to a sole owner of a surface in good
/// standing that still has pixels, and to nobody else. Any other count than
/// one refuses it as `NonExclusive`, whatever the status and the pixels.
pub proof fn lemma_borrow_checks_in_order(count: u32, status: Status, has_data: bool)
    ensures
        borrow_outcome(count, status, has_data) is Ok <==> count == 1 && status
            == Status::Success && has_data,
        count != 1 ==> borrow_outcome(count, status, has_data) == Err::<(), BorrowError>(
            BorrowError::NonExclusive,
        ),
        count == 1 && status != Status::Success ==> borrow_outcome(count, status, has_data)
            == Err::<(), BorrowError>(BorrowError::Cairo(status)),
        count == 1 && status == Status::Success && !has_data ==> borrow_outcome(
            count,
            status,
            has_data,
        ) == Err::<(), BorrowError>(BorrowError::Cairo(Status::SurfaceFinished)),
{
}

/// Storage that passed the size check: the engine's constructor is to be
/// called next.
pub struct DataSurface {
    _checked: (),
}

/// A surface that the engine made over supplied storage: the storage is to
/// be attached to it next.
pub struct UnattachedSurface {
    surface: ImageSurface,
}

impl DataSurface {
    /// Takes what the engine's constructor returned. See
    /// `ImageSurface::from_raw_full`.
    pub fn created(self, ptr: usize, kind: SurfaceType, status: Status) -> (made: Result<
        UnattachedSurface,
        (Status, CountChange),
    >)
        ensures
            made is Ok <==> adoption_failure(ptr, kind, SurfaceType::Image, status) is None,
            made is Ok ==> made->Ok_0.ptr() == ptr,
            made is Err ==> Some(made->Err_0) == adoption_failure(
                ptr,
                kind,
                SurfaceType::Image,
                status,
            ),
    {
        match ImageSurface::from_raw_full(ptr, kind, status) {
            Ok(surface) => Ok(UnattachedSurface { surface }),
            Err(failed) => Err(failed),
        }
    }
}

impl UnattachedSurface {
    /// The address of the native surface.
    pub closed spec fn ptr(&self) -> usize {
        self.surface.ptr()
    }

    /// The surface, to attach the storage to it.
    pub fn surface(&self) -> (surface: &ImageSurface)
        ensures
            surface.ptr() == self.ptr(),
    {
        &self.surface
    }

    /// Takes the status of attaching the storage. On success the surface is
    /// handed out. On failure the status is, and the surface is released:
    /// the reference that it came with is given up.
    pub fn attached(self, attached: Status) -> (image: Result<ImageSurface, (Status, CountChange)>)
        ensures
            attached == Status::Success <==> image is Ok,
            image is Ok ==> image->Ok_0.ptr() == self.ptr(),
            image is Err ==> image->Err_0 == (attached, CountChange::Destroy),
    {
        match crate::surface::set_user_data(attached) {
            Ok(_) => Ok(self.surface),
            Err(failed) => {
                let (_, release) = self.surface.into_surface().drop();
                Err((failed, release))
            },
        }
    }
}

/// The first stage of a borrow: the engine's reference count for the surface
/// is awaited.
pub struct ExclusiveCheck<'a> {
    surface: &'a ImageSurface,
}

/// The second stage: nobody else holds the surface, and it is to be flushed.
pub struct PendingFlush<'a> {
    surface: &'a ImageSurface,
}

/// The third stage: the surface is flushed, and its status is awaited.
pub struct StatusCheck<'a> {
    surface: &'a ImageSurface,
}

/// The last stage: the surface is in good standing, and its pixels are
/// awaited.
pub struct DataCheck<'a> {
    surface: &'a ImageSurface,
}

impl<'a> ExclusiveCheck<'a> {
    /// The address of the native surface.
    pub closed spec fn ptr(&self) -> usize {
        self.surface.ptr()
    }

    /// Takes the engine's reference count. Only a count of exactly one says
    /// that the owner that asks holds the surface alone. With any other
    /// count the borrow is refused as `NonExclusive` before the surface is
    /// touched.
    pub fn count(self, count: u32) -> (next: Result<PendingFlush<'a>, BorrowError>)
        ensures
            count == 1 <==> next is Ok,
            next is Ok ==> next->Ok_0.ptr() == self.ptr(),
            next is Err ==> next->Err_0 == BorrowError::NonExclusive,
    {
        if count != 1 {
            Err(BorrowError::NonExclusive)
        } else {
            Ok(PendingFlush { surface: self.surface })
        }
    }
}

impl<'a> PendingFlush<'a> {
    /// The address of the native surface.
    pub closed spec fn ptr(&self) -> usize {
        self.surface.ptr()
    }

    /// Records that the surface was flushed, so that what is pending of
    /// earlier drawing is in the pixels before anything is read.
    pub fn flushed(self) -> (next: StatusCheck<'a>)
        ensures
            next.ptr() == self.ptr(),
    {
        StatusCheck { surface: self.surface }
    }
}

impl<'a> StatusCheck<'a> {
    /// The address of the native surface.
    pub closed spec fn ptr(&self) -> usize {
        self.surface.ptr()
    }

    /// Takes the status of the flushed surface. Anything but success refuses
    /// the borrow with that status.
    pub fn status(self, status: Status) -> (next: Result<DataCheck<'a>, BorrowError>)
        ensures
            status == Status::Success <==> next is Ok,
            next is Ok ==> next->Ok_0.ptr() == self.ptr(),
            next is Err ==> next->Err_0 == BorrowError::Cairo(status),
    {
        match status {
            Status::Success => Ok(DataCheck { surface: self.surface }),
            status => Err(BorrowError::from(status)),
        }
    }
}

impl<'a> DataCheck<'a> {
    /// The address of the native surface.
    pub closed spec fn ptr(&self) -> usize {
        self.surface.ptr()
    }

    /// Takes the pixels, `None` where the engine has none to give: then the
    /// surface is finished, and the borrow is refused as `SurfaceFinished`.
    /// Otherwise the borrow is granted, over exactly these pixels and not
    /// yet written to.
    pub fn data(self, data: Option<&'a mut [u8]>) -> (borrow: Result<
        ImageSurfaceData<'a>,
        BorrowError,
    >)
        ensures
            data is Some <==> borrow is Ok,
            borrow is Ok ==> {
                &&& borrow->Ok_0@ == data->Some_0@
                &&& borrow->Ok_0.ptr() == self.ptr()
                &&& !borrow->Ok_0.is_dirty()
            },
            borrow is Err ==> borrow->Err_0 == BorrowError::Cairo(Status::SurfaceFinished),
    {
        match data {
            Some(slice) => Ok(ImageSurfaceData::new(self.surface, slice)),
            None => Err(BorrowError::from(Status::SurfaceFinished)),
        }
    }
}

/// What the end of a borrow asks of the engine.
#[derive(Clone, Copy, Debug, PartialEq, Eq, Structural)]
pub enum Release {
    /// Nothing was written: the engine is not told anything.
    Untouched,
    /// The pixels may have changed: the surface is to be marked dirty.
    MarkDirty,
}

/// A scoped, exclusive view of the pixels of an image surface. While it
/// lives the surface is borrowed and nobody else can reach it.
pub struct ImageSurfaceData<'a> {
    surface: &'a ImageSurface,
    slice: &'a mut [u8],
    dirty: bool,
}

impl<'a> ImageSurfaceData<'a> {
    /// The pixels, as they are now.
    pub closed spec fn view(&self) -> Seq<u8> {
        self.slice@
    }

    /// Whether the pixels were handed out for writing.
    pub closed spec fn is_dirty(&self) -> bool {
        self.dirty
    }

    /// The address of the native surface whose pixels these are.
    pub closed spec fn ptr(&self) -> usize {
        self.surface.ptr()
    }

    /// A view of `slice`, the pixels of `surface`, not yet written to.
    fn new(surface: &'a ImageSurface, slice: &'a mut [u8]) -> (borrow: ImageSurfaceData<'a>)
        ensures
            borrow@ == old(slice)@,
            borrow.ptr() == surface.ptr(),
            !borrow.is_dirty(),
    {
        ImageSurfaceData { surface, slice, dirty: false }
    }

    /// The surface whose pixels these are.
    pub fn surface(&self) -> (surface: &ImageSurface)
        ensures
            surface.ptr() == self.ptr(),
    {
        self.surface
    }

    /// The pixels, to read. Reading leaves no mark.
    pub fn deref(&self) -> (pixels: &[u8])
        ensures
            pixels@ == self@,
    {
        &*self.slice
    }

    /// The pixels, to write. Handing them out marks the borrow dirty, whether
    /// or not a byte is then changed.
    pub fn deref_mut(&mut self) -> (pixels: &mut [u8])
        ensures
            pixels@ == old(self)@,
            final(self)@ == final(pixels)@,
            final(self).is_dirty(),
            final(self).ptr() == old(self).ptr(),
    {
        self.dirty = true;
        &mut *self.slice
    }

    /// Whether the pixels were handed out for writing.
    pub fn dirty(&self) -> (dirty: bool)
        ensures
            dirty == self.is_dirty(),
    {
        self.dirty
    }

    /// Ends the borrow. The surface is to be marked dirty exactly when the
    /// pixels were handed out for writing.
    pub fn drop(self) -> (release: Release)
        ensures
            release == if self.is_dirty() {
                Release::MarkDirty
            } else {
                Release::Untouched
            },
    {
        if self.dirty {
            Release::MarkDirty
        } else {
            Release::Untouched
        }
    }
}

} // verus!
