use cairo::enums::{Status, SurfaceType};
use cairo::error::BorrowError;
use cairo::image_surface::{ImageSurface, Release};
use cairo::surface::{CountChange, Surface};

fn image(ptr: usize) -> ImageSurface {
    ImageSurface::from_raw_full(ptr, SurfaceType::Image, Status::Success).ok().unwrap()
}

#[test]
fn create_with_invalid_size_yields_error() {
    // The engine answers a request for 50000 x 50000 pixels with a surface
    // whose status is InvalidSize.
    let result = ImageSurface::from_raw_full(0x10, SurfaceType::Image, Status::InvalidSize);
    assert!(result.is_err());
}

#[test]
fn create_for_data_with_invalid_stride_yields_error() {
    // Ten bytes hold two rows of five, so the storage passes; the engine then
    // refuses the unaligned stride.
    let result = ImageSurface::create_for_data_from(
        vec![0u8; 10].len(),
        2,
        5,
        0x10,
        SurfaceType::Image,
        Status::InvalidStride,
        Status::Success,
    );
    assert!(result.is_err());
    assert_eq!(result.err(), Some((Status::InvalidStride, CountChange::Destroy)));
}

#[test]
fn create_with_valid_size() {
    let result = ImageSurface::from_raw_full(0x10, SurfaceType::Image, Status::Success);
    assert!(result.is_ok());

    let result = ImageSurface::create_for_data_from(
        vec![0u8; 40 * 10].len(),
        10,
        40,
        0x20,
        SurfaceType::Image,
        Status::Success,
        Status::Success,
    );
    assert!(result.is_ok());
    assert_eq!(result.unwrap().as_ref().to_raw_none(), 0x20);
}

#[test]
fn short_storage_is_rejected_before_the_engine_is_asked() {
    assert_eq!(ImageSurface::create_for_data(399, 10, 40).err(), Some(Status::InvalidSize));
    assert!(ImageSurface::create_for_data(400, 10, 40).is_ok());
    assert!(ImageSurface::create_for_data(401, 10, 40).is_ok());
    assert!(ImageSurface::create_for_data(0, 0, 40).is_ok());
    assert!(ImageSurface::create_for_data(0, 10, 0).is_ok());
    assert_eq!(ImageSurface::create_for_data(1000, -1, 40).err(), Some(Status::InvalidSize));
    assert_eq!(ImageSurface::create_for_data(1000, 10, -40).err(), Some(Status::InvalidSize));
    assert!(ImageSurface::create_for_data(400, -10, -40).is_ok());
    assert_eq!(
        ImageSurface::create_for_data(usize::MAX, i32::MIN, i32::MAX).err(),
        Some(Status::InvalidSize)
    );
    assert_eq!(ImageSurface::check_data_size(9, 2, 5), Err(Status::InvalidSize));
    assert_eq!(ImageSurface::check_data_size(10, 2, 5), Ok(()));
}

#[test]
fn creation_over_storage_fails_at_the_first_failure() {
    let all = |len, ptr, kind, status, attached| {
        ImageSurface::create_for_data_from(len, 10, 40, ptr, kind, status, attached)
            .map(|s| s.as_ref().to_raw_none())
    };
    assert_eq!(
        all(1, 0, SurfaceType::Pdf, Status::NoMemory, Status::ReadError),
        Err((Status::InvalidSize, CountChange::Keep))
    );
    assert_eq!(
        all(1, 9, SurfaceType::Image, Status::Success, Status::Success),
        Err((Status::InvalidSize, CountChange::Keep))
    );
    assert_eq!(
        all(400, 0, SurfaceType::Pdf, Status::NoMemory, Status::ReadError),
        Err((Status::NullPointer, CountChange::Keep))
    );
    assert_eq!(
        all(400, 9, SurfaceType::Pdf, Status::NoMemory, Status::ReadError),
        Err((Status::SurfaceTypeMismatch, CountChange::Destroy))
    );
    assert_eq!(
        all(400, 9, SurfaceType::Image, Status::NoMemory, Status::ReadError),
        Err((Status::NoMemory, CountChange::Destroy))
    );
    assert_eq!(
        all(400, 9, SurfaceType::Image, Status::Success, Status::ReadError),
        Err((Status::ReadError, CountChange::Destroy))
    );
    assert_eq!(all(400, 9, SurfaceType::Image, Status::Success, Status::Success), Ok(9));
}

#[test]
fn failed_construction_releases_the_adopted_reference() {
    let failed = ImageSurface::from_raw_full(0x10, SurfaceType::Image, Status::NoMemory);
    assert_eq!(failed.err(), Some((Status::NoMemory, CountChange::Destroy)));
    let begun = ImageSurface::create_for_data(400, 10, 40).unwrap();
    let failed = begun.created(0x10, SurfaceType::Image, Status::InvalidStride);
    assert_eq!(failed.err(), Some((Status::InvalidStride, CountChange::Destroy)));
    let begun = ImageSurface::create_for_data(400, 10, 40).unwrap();
    let made = begun.created(0x10, SurfaceType::Image, Status::Success).ok().unwrap();
    assert_eq!(
        made.attached(Status::NoMemory).err(),
        Some((Status::NoMemory, CountChange::Destroy))
    );
    let begun = ImageSurface::create_for_data(400, 10, 40).unwrap();
    assert_eq!(
        begun.created(0, SurfaceType::Image, Status::Success).err(),
        Some((Status::NullPointer, CountChange::Keep))
    );
}

#[test]
fn staged_creation_hands_the_surface_out_for_attaching() {
    let begun = ImageSurface::create_for_data(400, 10, 40).unwrap();
    let made = begun.created(0x77, SurfaceType::Image, Status::Success).ok().unwrap();
    assert_eq!(made.surface().as_ref().to_raw_none(), 0x77);
    let image = made.attached(Status::Success).unwrap();
    assert_eq!(image.as_ref().to_raw_none(), 0x77);
}

#[test]
fn only_image_surfaces_become_image_surfaces() {
    let surface = Surface::from_raw_full(0x30).unwrap();
    let back = ImageSurface::from(surface, SurfaceType::Pdf).err().unwrap();
    assert_eq!(back.to_raw_none(), 0x30);
    let image = ImageSurface::from(back, SurfaceType::Image).ok().unwrap();
    assert_eq!(image.as_ref().to_raw_none(), 0x30);
    assert_eq!(
        ImageSurface::from_raw_full(0, SurfaceType::Image, Status::Success).err(),
        Some((Status::NullPointer, CountChange::Keep))
    );
    assert_eq!(
        ImageSurface::from_raw_full(5, SurfaceType::Svg, Status::NoMemory).err(),
        Some((Status::SurfaceTypeMismatch, CountChange::Destroy))
    );
    assert_eq!(
        ImageSurface::from_raw_full(5, SurfaceType::Image, Status::NoMemory).err(),
        Some((Status::NoMemory, CountChange::Destroy))
    );
}

#[test]
fn second_owner_makes_the_borrow_non_exclusive() {
    let mut surface = image(0x40);
    let mut pixels = vec![0u8; 16];
    let refused = surface.get_data_from(2, Status::Success, Some(&mut pixels[..]));
    assert_eq!(refused.err(), Some(BorrowError::NonExclusive));
    let refused = surface.get_data_from(u32::MAX, Status::NoMemory, None);
    assert_eq!(refused.err(), Some(BorrowError::NonExclusive));
    assert_eq!(surface.get_data().count(2).err(), Some(BorrowError::NonExclusive));
}

#[test]
fn a_count_of_zero_is_not_exclusive_either() {
    let mut surface = image(0x40);
    let mut pixels = vec![0u8; 16];
    let refused = surface.get_data_from(0, Status::Success, Some(&mut pixels[..]));
    assert_eq!(refused.err(), Some(BorrowError::NonExclusive));
    assert_eq!(surface.get_data().count(0).err(), Some(BorrowError::NonExclusive));
    assert!(surface.get_data().count(1).is_ok());
}

#[test]
fn sole_owner_gets_the_pixels() {
    let mut surface = image(0x40);
    let mut pixels: Vec<u8> = (0..16).collect();
    let borrow = surface.get_data_from(1, Status::Success, Some(&mut pixels[..])).ok().unwrap();
    assert_eq!(borrow.deref(), &(0..16).collect::<Vec<u8>>()[..]);
    assert!(!borrow.dirty());
    assert_eq!(borrow.drop(), Release::Untouched);
}

#[test]
fn borrow_checks_come_in_order() {
    let mut surface = image(0x40);
    let mut pixels = vec![0u8; 4];
    assert_eq!(
        surface.get_data_from(1, Status::NoMemory, None).err(),
        Some(BorrowError::Cairo(Status::NoMemory))
    );
    assert_eq!(
        surface.get_data_from(1, Status::NoMemory, Some(&mut pixels[..])).err(),
        Some(BorrowError::Cairo(Status::NoMemory))
    );
    assert_eq!(
        surface.get_data_from(1, Status::Success, None).err(),
        Some(BorrowError::Cairo(Status::SurfaceFinished))
    );
    assert_eq!(
        surface.get_data_from(0, Status::Success, None).err(),
        Some(BorrowError::NonExclusive)
    );
    assert_eq!(
        surface.get_data_from(0, Status::NoMemory, None).err(),
        Some(BorrowError::NonExclusive)
    );
    assert_eq!(
        surface.get_data_from(1, Status::SurfaceFinished, None).err(),
        Some(BorrowError::Cairo(Status::SurfaceFinished))
    );
}

#[test]
fn staged_borrow_walks_every_stage() {
    let mut surface = image(0x40);
    let mut pixels = vec![9u8; 4];
    let flush = surface.get_data().count(1).ok().unwrap();
    let inspect = flush.flushed().status(Status::Success).ok().unwrap();
    let borrow = inspect.data(Some(&mut pixels[..])).ok().unwrap();
    assert_eq!(borrow.deref(), &[9u8, 9, 9, 9][..]);

    let mut other = image(0x50);
    let refused = other.get_data().count(1).ok().unwrap().flushed().status(Status::WriteError);
    assert_eq!(refused.err(), Some(BorrowError::Cairo(Status::WriteError)));
}

#[test]
fn writing_marks_the_surface_dirty_once() {
    let mut surface = image(0x40);
    let mut pixels = vec![0u8; 8];
    {
        let mut borrow = surface.get_data_from(1, Status::Success, Some(&mut pixels[..])).ok().unwrap();
        assert!(!borrow.dirty());
        borrow.deref_mut()[3] = 0xff;
        assert!(borrow.dirty());
        borrow.deref_mut()[4] = 0x7f;
        assert_eq!(borrow.deref()[3], 0xff);
        assert_eq!(borrow.drop(), Release::MarkDirty);
    }
    assert_eq!(pixels, vec![0, 0, 0, 0xff, 0x7f, 0, 0, 0]);
}

#[test]
fn reading_never_marks_the_surface_dirty() {
    let mut surface = image(0x40);
    let mut pixels = vec![1u8; 8];
    let borrow = surface.get_data_from(1, Status::Success, Some(&mut pixels[..])).ok().unwrap();
    let sum: u32 = borrow.deref().iter().map(|b| *b as u32).sum();
    assert_eq!(sum, 8);
    assert_eq!(borrow.drop(), Release::Untouched);
}

#[test]
fn handing_out_for_writing_counts_as_writing() {
    let mut surface = image(0x40);
    let mut pixels = vec![1u8; 2];
    let mut borrow = surface.get_data_from(1, Status::Success, Some(&mut pixels[..])).ok().unwrap();
    let _ = borrow.deref_mut();
    assert_eq!(borrow.drop(), Release::MarkDirty);
}

#[test]
fn pixel_memory_length() {
    assert_eq!(ImageSurface::data_len(40, 10), Some(400));
    assert_eq!(ImageSurface::data_len(0, 10), Some(0));
    assert_eq!(ImageSurface::data_len(40, 0), Some(0));
    assert_eq!(ImageSurface::data_len(-4, 10), None);
    assert_eq!(ImageSurface::data_len(4, -1), None);
    assert_eq!(
        ImageSurface::data_len(i32::MAX, i32::MAX),
        Some((i32::MAX as usize) * (i32::MAX as usize))
    );
}

#[test]
fn image_surface_shares_like_a_surface() {
    let surface = image(0x60);
    let (copy, change) = surface.clone();
    assert_eq!(copy.as_ref().to_raw_none(), 0x60);
    assert_eq!(change, CountChange::Reference);
}

#[test]
fn image_surface_gives_its_surface_up() {
    let surface = image(0x61).into_surface();
    assert_eq!(surface.to_raw_none(), 0x61);
    let (ptr, change) = surface.drop();
    assert_eq!((ptr, change), (0x61, CountChange::Destroy));
}

#[test]
fn borrow_knows_its_surface() {
    let mut surface = image(0x62);
    let mut pixels = vec![0u8; 4];
    let borrow = surface.get_data_from(1, Status::Success, Some(&mut pixels[..])).ok().unwrap();
    assert_eq!(borrow.surface().as_ref().to_raw_none(), 0x62);
}
