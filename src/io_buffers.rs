//! Where the library's output streams go.
use vstd::prelude::*;

use crate::error::{QhError, QhErrorKind};
use crate::tmp_file::{utf8_to_string, TmpFile};
use vstd::utf8::{decode_utf8, valid_utf8};

verus! {

/// A stream the library reads or writes.
#[derive(Clone, Copy, Debug, PartialEq, Eq, Structural)]
pub enum Stream {
    /// The process's standard input.
    Stdin,
    /// The process's standard output.
    Stdout,
    /// The process's standard error.
    Stderr,
    /// The capture file of the library's standard output.
    CapturedOut,
    /// The capture file of the library's error output.
    CapturedErr,
}

/// The capture files of a computation: one for each output stream that is
/// captured.
pub struct IOBuffers {
    pub out_file: Option<TmpFile>,
    pub err_file: Option<TmpFile>,
}

impl IOBuffers {
    /// Capture files for the streams asked for, each empty.
    pub fn new(capture_stdout: bool, capture_stderr: bool) -> (r: Self)
        ensures
            r.out_file is Some <==> capture_stdout,
            r.err_file is Some <==> capture_stderr,
            r.out_file matches Some(f) ==> f.written().len() == 0,
            r.err_file matches Some(f) ==> f.written().len() == 0,
    {
        IOBuffers {
            out_file: if capture_stdout {
                Some(TmpFile::new())
            } else {
                None
            },
            err_file: if capture_stderr {
                Some(TmpFile::new())
            } else {
                None
            },
        }
    }

    /// The stream the library reads: always standard input.
    pub fn in_file(&self) -> (r: Stream)
        ensures
            r == Stream::Stdin,
    {
        Stream::Stdin
    }

    /// The stream the library's output goes to.
    pub fn out_file(&self) -> (r: Stream)
        ensures
            r == if self.out_file is Some {
                Stream::CapturedOut
            } else {
                Stream::Stdout
            },
    {
        if self.out_file.is_some() {
            Stream::CapturedOut
        } else {
            Stream::Stdout
        }
    }

    /// The stream the library's error output goes to.
    pub fn err_file(&self) -> (r: Stream)
        ensures
            r == if self.err_file is Some {
                Stream::CapturedErr
            } else {
                Stream::Stderr
            },
    {
        if self.err_file.is_some() {
            Stream::CapturedErr
        } else {
            Stream::Stderr
        }
    }

    /// Takes what the error output's capture file holds, `None` where the
    /// error output was not captured, and puts an empty capture file on the
    /// error output either way, so that the next error is captured on its
    /// own.
    pub fn take_error_text(&mut self) -> (r: Option<Vec<u8>>)
        ensures
            r is Some <==> old(self).err_file is Some,
            r matches Some(b) ==> b@ == old(self).err_file->0.written(),
            final(self).err_file matches Some(f) && f.written().len() == 0,
            final(self).out_file == old(self).out_file,
    {
        let old_file = self.err_file.take();
        self.err_file = Some(TmpFile::new());
        match old_file {
            Some(f) => Some(f.read_and_close()),
            None => None,
        }
    }

    /// Settles a fallible call from the status it reported and the value
    /// it returned if it ran to its end. Status 0 gives the value and leaves
    /// the capture files as they are. Any other status gives an error with
    /// that code; where the error output was captured, its capture file is
    /// read as the error's message; either way an empty capture file then
    /// takes the error output, so that the next error is captured on its
    /// own.
    pub fn settle<R>(&mut self, err_code: i32, result: Option<R>) -> (r: Result<R, QhError>)
        requires
            err_code == 0 ==> result is Some,
        ensures
            err_code == 0 ==> (r matches Ok(v) && v == result->0),
            err_code == 0 ==> *final(self) == *old(self),
            err_code != 0 ==> (r matches Err(e) && e.kind == QhErrorKind::Other(err_code) && (
            e.error_message is Some <==> (old(self).err_file is Some && valid_utf8(
                old(self).err_file->0.written(),
            ))) && (e.error_message matches Some(m) ==> m@ == decode_utf8(
                old(self).err_file->0.written(),
            ))),
            err_code != 0 ==> (final(self).err_file matches Some(f) && f.written().len() == 0),
            final(self).out_file == old(self).out_file,
    {
        if err_code == 0 {
            return QhError::try_outcome(err_code, result, None);
        }
        let message = match self.take_error_text() {
            Some(bytes) => utf8_to_string(bytes),
            None => None,
        };
        QhError::try_outcome(err_code, result, message)
    }
}

} // verus!
