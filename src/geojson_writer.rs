use vstd::prelude::*;

use crate::error::{describe_failure, failure_text, managed_string, opt_view, Error, GResult};

verus! {

/// A GeoJSON writer of the native engine: the native handle `P` that it owns
/// alone, and the context `C` that every native call on it goes through.
///
/// A value exists only for a handle that the native constructor actually
/// returned. Releasing consumes the value, so the handle is handed back once.
#[derive(Debug)]
pub struct GeoJSONWriter<P, C> {
    ptr: P,
    context: C,
}

impl<P, C> GeoJSONWriter<P, C> {
    /// The native handle owned by this writer.
    pub closed spec fn handle(&self) -> P {
        self.ptr
    }

    /// The context this writer's native calls go through.
    pub closed spec fn context(&self) -> C {
        self.context
    }

    /// Adopts what the native constructor returned, `None` standing for a null
    /// handle. A null handle is refused with a construction failure that names
    /// `GeoJSONWriter::<caller>` and carries the context's last native error.
    pub fn new_from_raw(ptr: Option<P>, context: C, caller: &str, last_error: Option<String>) -> (r:
        GResult<GeoJSONWriter<P, C>>)
        ensures
            ptr is None <==> r is Err,
            r is Ok ==> r->Ok_0.handle() == ptr->Some_0 && r->Ok_0.context() == context,
            r is Err ==> r->Err_0 is NoConstructionFromNullPtr && r->Err_0.text() == failure_text(
                "GeoJSONWriter::"@ + caller@,
                opt_view(last_error),
            ),
    {
        match ptr {
            Some(p) => Ok(GeoJSONWriter { ptr: p, context }),
            None => {
                let what = String::from_str("GeoJSONWriter::").concat(caller);
                Err(Error::NoConstructionFromNullPtr(describe_failure(what.as_str(), last_error)))
            },
        }
    }

    pub fn as_raw(&self) -> (r: &P)
        ensures
            *r == self.handle(),
    {
        &self.ptr
    }

    pub fn get_context_handle(&self) -> (r: &C)
        ensures
            *r == self.context(),
    {
        &self.context
    }

    /// Replaces the context; the writer keeps its native handle.
    pub fn set_context_handle(&mut self, context: C)
        ensures
            final(self).context() == context,
            final(self).handle() == old(self).handle(),
    {
        self.context = context;
    }

    /// Finishes a write: `output` is the GeoJSON text that the native writer
    /// returned, `None` standing for a null result, which becomes an operation
    /// failure naming `GeoJSONWriter::write`.
    pub fn finish_write(&self, output: Option<String>, last_error: Option<String>) -> (r: GResult<
        String,
    >)
        ensures
            output is Some ==> r == Ok::<String, Error>(output->Some_0),
            output is None ==> r is Err && r->Err_0 is GeosError && r->Err_0.text() == failure_text(
                "GeoJSONWriter::write"@,
                opt_view(last_error),
            ),
    {
        managed_string(output, "GeoJSONWriter::write", last_error)
    }

    /// Gives up the writer, handing back its native handle and context for release.
    pub fn into_raw(self) -> (r: (P, C))
        ensures
            r.0 == self.handle(),
            r.1 == self.context(),
    {
        (self.ptr, self.context)
    }
}

} // verus!
