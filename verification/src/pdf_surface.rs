//! PDF surfaces: to a file, or through a callback to a byte sink.

use std::rc::Rc;
use vstd::prelude::*;
use crate::enums::Status;
use crate::enums::SurfaceType;
use crate::error::NotSupported;
use crate::support::ByteSink;
use crate::support::CallbackEnv;
use crate::surface::adoption_failure;
use crate::surface::CountChange;
use crate::surface::Surface;

verus! {

/// The sink of a PDF surface that writes through a callback: the environment
/// that the engine hands back on every callback, with the sink and the slot
/// for the error of a write that failed.
pub struct Writer<W, E>(pub Box<CallbackEnv<W, E>>);

/// A surface that renders to PDF.
pub enum PDFSurface<W, E> {
    /// A surface that the engine writes to a file by itself.
    Raw(Surface),
    /// A surface whose output goes through a callback to a sink.
    Writer(Surface, Writer<W, E>),
    /// A surface whose output is gathered in memory.
    Buffer(Surface, Rc<Vec<u8>>),
}

impl<W, E> PDFSurface<W, E> {
    /// The surface underneath.
    pub open spec fn surface(&self) -> Surface {
        match *self {
            PDFSurface::Raw(surface) => surface,
            PDFSurface::Writer(surface, _) => surface,
            PDFSurface::Buffer(surface, _) => surface,
        }
    }

    /// The callback environment, if the surface writes through a callback.
    pub open spec fn env(&self) -> Option<CallbackEnv<W, E>> {
        match *self {
            PDFSurface::Writer(_, sink) => Some(*sink.0),
            _ => None,
        }
    }

    /// The error that the callback environment holds, if there is an
    /// environment and it holds one.
    pub open spec fn held_error(&self) -> Option<E> {
        match self.env() {
            Some(env) => env.error,
            None => None,
        }
    }

    /// Takes `surface` for a PDF surface if the engine says it is one, and
    /// hands it back if not.
    pub fn from(surface: Surface, kind: SurfaceType) -> (pdf: Result<PDFSurface<W, E>, Surface>)
        ensures
            kind == SurfaceType::Pdf ==> pdf is Ok && pdf->Ok_0 == PDFSurface::<W, E>::Raw(
                surface,
            ),
            kind != SurfaceType::Pdf ==> pdf is Err && pdf->Err_0 == surface,
    {
        match kind {
            SurfaceType::Pdf => Ok(PDFSurface::Raw(surface)),
            _ => Err(surface),
        }
    }

    /// Wraps what a constructing call of the engine returned, taking over its
    /// reference. A null address is reported as `NullPointer`, a surface of
    /// another kind as `SurfaceTypeMismatch`. A failure comes with the
    /// change that is due to the engine's count: a surface of another kind
    /// is released.
    pub fn from_raw_full(ptr: usize, kind: SurfaceType) -> (pdf: Result<
        PDFSurface<W, E>,
        (Status, CountChange),
    >)
        ensures
            pdf is Ok <==> adoption_failure(ptr, kind, SurfaceType::Pdf, Status::Success)
                is None,
            pdf is Ok ==> pdf->Ok_0 is Raw && pdf->Ok_0.surface().ptr() == ptr,
            pdf is Err ==> Some(pdf->Err_0) == adoption_failure(
                ptr,
                kind,
                SurfaceType::Pdf,
                Status::Success,
            ),
    {
        let surface = match Surface::from_raw_full(ptr) {
            Ok(surface) => surface,
            Err(_) => {
                return Err((Status::NullPointer, CountChange::Keep));
            },
        };
        match PDFSurface::from(surface, kind) {
            Ok(pdf) => Ok(pdf),
            Err(other) => {
                let (_, release) = other.drop();
                Err((Status::SurfaceTypeMismatch, release))
            },
        }
    }

    /// Wraps a surface that the engine made to write through a callback,
    /// together with the environment whose address the engine was given. The
    /// surface keeps the environment, and with it the sink and any error of
    /// the sink, for as long as it lives. Without a surface the environment
    /// is handed back, with `NullPointer`.
    pub fn writer(ptr: usize, callback_env: Box<CallbackEnv<W, E>>) -> (pdf: Result<
        PDFSurface<W, E>,
        (Status, Box<CallbackEnv<W, E>>),
    >)
        ensures
            pdf is Ok <==> ptr != 0,
            pdf is Ok ==> {
                &&& pdf->Ok_0 is Writer
                &&& pdf->Ok_0.surface().ptr() == ptr
                &&& *pdf->Ok_0->Writer_1.0 == *callback_env
            },
            pdf is Err ==> pdf->Err_0.0 == Status::NullPointer && *pdf->Err_0.1 == *callback_env,
    {
        match Surface::from_raw_full(ptr) {
            Ok(surface) => Ok(PDFSurface::Writer(surface, Writer(callback_env))),
            Err(_) => Err((Status::NullPointer, callback_env)),
        }
    }

    /// The error of the last write that failed, if the surface writes
    /// through a callback and one is held.
    pub fn io_error(&self) -> (held: Option<&E>)
        ensures
            held is Some <==> self.held_error() is Some,
            held is Some ==> *held->Some_0 == self.held_error()->Some_0,
    {
        match self {
            PDFSurface::Writer(_, sink) => sink.0.io_error(),
            _ => None,
        }
    }

    /// Hands out the held error and empties the slot. The surface and the
    /// sink stay as they are.
    pub fn take_io_error(&mut self) -> (held: Option<E>)
        ensures
            held == old(self).held_error(),
            final(self).held_error() is None,
            final(self).surface() == old(self).surface(),
            old(self).env() is Some <==> final(self).env() is Some,
            old(self).env() is Some ==> final(self).env()->Some_0.writer == old(
                self,
            ).env()->Some_0.writer,
            old(self).env() is None ==> *final(self) == *old(self),
    {
        match self {
            PDFSurface::Writer(_, sink) => sink.0.take_io_error(),
            _ => None,
        }
    }

    /// A surface whose output is gathered in memory is not offered.
    pub fn bufffered() -> (pdf: Result<PDFSurface<W, E>, NotSupported>)
        ensures
            pdf is Err,
    {
        Err(NotSupported)
    }

    /// The surface underneath.
    pub fn as_ref(&self) -> (surface: &Surface)
        ensures
            *surface == self.surface(),
    {
        match self {
            PDFSurface::Raw(surface) => surface,
            PDFSurface::Writer(surface, _) => surface,
            PDFSurface::Buffer(surface, _) => surface,
        }
    }
}

impl<W: ByteSink> PDFSurface<W, W::Error> {
    /// One callback of the engine on a surface made by `writer`: forwards the
    /// chunk to the sink of the environment and tells the engine how it
    /// went. The engine is told `Success` exactly when the sink took the
    /// whole chunk. Otherwise it is told `WriteError`, and the sink's own
    /// error is held in the environment for the caller.
    pub fn write_to(env: &mut CallbackEnv<W, W::Error>, data: &[u8]) -> (status: Status)
        ensures
            status == if old(env).writer.accepts(data@) {
                Status::Success
            } else {
                Status::WriteError
            },
            final(env).writer.follows(&old(env).writer, data@),
            0 <= old(env).writer.takes(data@) <= data@.len(),
            final(env).writer.written() == old(env).writer.written() + data@.take(
                old(env).writer.takes(data@),
            ),
            old(env).writer.accepts(data@) ==> {
                &&& final(env).writer.written() == old(env).writer.written() + data@
                &&& final(env).error == old(env).error
            },
            !old(env).writer.accepts(data@) ==> final(env).error == Some(
                old(env).writer.refusal(data@),
            ),
            old(env).writer.never_fails() ==> status == Status::Success,
            old(env).writer.never_fails() ==> final(env).writer.never_fails(),
    {
        env.write(data)
    }

    /// One callback of the engine on this surface. A surface that does not
    /// write through a callback has no sink: the engine is told
    /// `WriteError`, and the surface stays as it is.
    pub fn write_cb(&mut self, data: &[u8]) -> (status: Status)
        ensures
            final(self).surface() == old(self).surface(),
            old(self).env() is None ==> status == Status::WriteError && *final(self) == *old(
                self,
            ),
            old(self).env() is Some ==> {
                let before = old(self).env()->Some_0;
                let after = final(self).env()->Some_0;
                &&& final(self).env() is Some
                &&& status == if before.writer.accepts(data@) {
                    Status::Success
                } else {
                    Status::WriteError
                }
                &&& after.writer.written() == before.writer.written() + data@.take(
                    before.writer.takes(data@),
                )
                &&& before.writer.accepts(data@) ==> after.error == before.error
                &&& !before.writer.accepts(data@) ==> after.error == Some(
                    before.writer.refusal(data@),
                )
            },
    {
        match self {
            PDFSurface::Writer(_, sink) => PDFSurface::<W, W::Error>::write_to(&mut sink.0, data),
            _ => Status::WriteError,
        }
    }
}

} // verus!
