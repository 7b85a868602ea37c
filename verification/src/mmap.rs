//! Bookkeeping of a memory-mapped file.
//!
//! The mapping itself is done by the C library; this module holds what the
//! map records (address, size, file handle, flags) and decides, step by step,
//! what each operation asks of the C side and what it concludes from the
//! answers. A driver performs each requested step and feeds back its result.
use vstd::prelude::*;
use crate::c::{BitFlag, BitFlag8, CodeError, Error};

pub mod file;
pub mod flag;
pub mod init_code;
pub mod init_flag;

verus! {

/// What a memory map records. An address of zero means that nothing is mapped.
#[derive(Debug)]
pub struct MemMap {
    addr: usize,
    size: usize,
    file: file::Type,
    flags: BitFlag8,
}

/// An answer of the C side, handed to `MemMap::nullify`.
pub enum NullifyEvent {
    /// The operation begins.
    Start,
    /// The requested synchronisation returned this status.
    Synced(Error),
    /// The requested release of the mapping was done.
    Deleted,
}

/// What `MemMap::nullify` asks for next.
#[derive(Debug)]
pub enum NullifyStep {
    /// Synchronise the mapped data with the file, then report `Synced`.
    Sync,
    /// Release the mapping and its file, then report `Deleted`.
    Delete,
    /// The operation is over, with this outcome.
    Finished(Result<(), ()>),
}

/// An answer of the C side, handed to `MemMap::init`.
pub enum InitEvent {
    /// The operation begins.
    Start,
    /// The requested synchronisation of the old mapping returned this status.
    Synced(Error),
    /// The requested release of the old mapping was done.
    Deleted,
    /// The requested mapping returned this status code and left the map so.
    Mapped(CodeError, MemMap),
}

/// What `MemMap::init` asks for next.
#[derive(Debug)]
pub enum InitStep {
    /// Synchronise the old mapping with its file, then report `Synced`.
    Sync,
    /// Release the old mapping, then report `Deleted`.
    Delete,
    /// Map the file into memory, then report `Mapped`.
    MapFile,
    /// The operation is over, with this outcome.
    Finished(Result<(), CodeError>),
}

/// An answer of the C side, handed to `MemMap::new` and `MemMap::new_secret`.
pub enum NewEvent {
    /// The operation begins.
    Start,
    /// The requested mapping returned this status code and left the map so.
    Mapped(CodeError, MemMap),
    /// The requested synchronisation of what a failed mapping left returned
    /// this status; the first value is the mapping's status code, handed back.
    Synced(CodeError, Error),
    /// The requested release of what a failed mapping left was done; the value
    /// is the mapping's status code, handed back.
    Deleted(CodeError),
}

/// What `MemMap::new` and `MemMap::new_secret` ask for next.
#[derive(Debug)]
pub enum NewStep {
    /// Map the file into the map of nothing, then report `Mapped`.
    MapFile,
    /// The mapping failed with this code: synchronise what it left with its
    /// file, then report `Synced` with the code.
    Sync(CodeError),
    /// The mapping failed with this code: release what it left, then report
    /// `Deleted` with the code.
    Delete(CodeError),
    /// The operation is over, with this outcome.
    Finished(Result<(), CodeError>),
    /// The mapping failed with this code, and what it left could not be
    /// synchronised, so it cannot be released.
    ReleaseFailed(CodeError),
}

impl MemMap {
    pub closed spec fn address(self) -> usize {
        self.addr
    }

    pub closed spec fn length(self) -> usize {
        self.size
    }

    pub closed spec fn file_handle(self) -> file::Type {
        self.file
    }

    pub closed spec fn flag_bits(self) -> BitFlag8 {
        self.flags
    }

    /// The map of nothing: no address, no size, no file, no flags.
    pub closed spec fn null() -> MemMap {
        MemMap { addr: 0, size: 0, file: file::NULL, flags: 0 }
    }

    /// This map with its flag bits replaced by `bits`.
    pub closed spec fn with_flags(self, bits: BitFlag8) -> MemMap {
        MemMap { flags: bits, ..self }
    }

    /// Whether the map has the fields of the map of nothing: address zero,
    /// size zero, the null file handle and no flags.
    pub open spec fn is_empty_map(self) -> bool {
        &&& self.address() == 0
        &&& self.length() == 0
        &&& self.file_handle() == file::NULL
        &&& self.flag_bits() == 0
    }

    /// Whether something is mapped.
    pub open spec fn initialized(self) -> bool {
        self.address() != 0
    }

    /// Whether the map is marked read-only.
    pub open spec fn readonly(self) -> bool {
        self.flag_bits() & flag::READ_ONLY != 0
    }

    /// Whether the map is marked secret.
    pub open spec fn secret(self) -> bool {
        self.flag_bits() & flag::SECRET != 0
    }

    /// A map with these fields, as the C side filled them in.
    pub fn from_parts(addr: usize, size: usize, file: file::Type, flags: BitFlag8) -> (m: MemMap)
        ensures
            m.address() == addr,
            m.length() == size,
            m.file_handle() == file,
            m.flag_bits() == flags,
    {
        MemMap { addr, size, file, flags }
    }

    /// A map of nothing.
    pub fn new_null() -> (m: MemMap)
        ensures
            m == MemMap::null(),
            m.is_empty_map(),
    {
        MemMap { addr: 0, size: 0, file: file::NULL, flags: 0 }
    }
    /// Whether something is mapped.
    pub fn is_initialized(&self) -> (r: bool)
        ensures
            r == self.initialized(),
    {
        self.addr != 0
    }

    /// Whether the map is marked read-only, so that nothing is written to it.
    pub fn is_readonly(&self) -> (r: bool)
        ensures
            r == self.readonly(),
    {
        (self.flags & flag::READ_ONLY) != 0u8
    }

    /// Whether the map is marked secret.
    pub fn is_secret(&self) -> (r: bool)
        ensures
            r == self.secret(),
    {
        (self.flags & flag::SECRET) != 0u8
    }

    /// The address of the mapped memory; zero when nothing is mapped.
    pub fn get_ptr(&self) -> (r: usize)
        ensures
            r == self.address(),
    {
        self.addr
    }

    /// The size of the mapped file; zero when nothing is mapped.
    pub fn get_size(&self) -> (r: usize)
        ensures
            r == self.length(),
    {
        self.size
    }

    /// The handle of the mapped file.
    pub fn get_file(&self) -> (r: file::Type)
        ensures
            r == self.file_handle(),
    {
        self.file
    }

    /// The eight flag bits.
    pub fn get_flags(&self) -> (r: BitFlag8)
        ensures
            r == self.flag_bits(),
    {
        self.flags
    }

    /// One step of releasing the map: from the map as it stands and the last
    /// answer of the C side, the map afterwards and the next request.
    pub open spec fn nullify_transition(self, event: NullifyEvent) -> (MemMap, NullifyStep) {
        match event {
            NullifyEvent::Start => if !self.initialized() {
                (MemMap::null(), NullifyStep::Finished(Ok(())))
            } else if !self.readonly() {
                (self, NullifyStep::Sync)
            } else {
                (self, NullifyStep::Delete)
            },
            NullifyEvent::Synced(err) => if err != 0 {
                (self, NullifyStep::Finished(Err(())))
            } else {
                (self, NullifyStep::Delete)
            },
            NullifyEvent::Deleted => (MemMap::null(), NullifyStep::Finished(Ok(()))),
        }
    }

    /// Releases the map: a mapped, writable map is first synchronised with its
    /// file, and a failed synchronisation ends the operation with `Err(())`,
    /// the map untouched; then the mapping is released and the map becomes the
    /// map of nothing. A map of nothing is reset at once.
    pub fn nullify(&mut self, event: NullifyEvent) -> (r: NullifyStep)
        ensures
            (*final(self), r) == old(self).nullify_transition(event),
            r matches NullifyStep::Finished(Ok(())) ==> final(self).is_empty_map(),
    {
        match event {
            NullifyEvent::Start => {
                if !self.is_initialized() {
                    *self = MemMap::new_null();
                    NullifyStep::Finished(Ok(()))
                } else if !self.is_readonly() {
                    NullifyStep::Sync
                } else {
                    NullifyStep::Delete
                }
            },
            NullifyEvent::Synced(err) => {
                if err != 0 {
                    NullifyStep::Finished(Err(()))
                } else {
                    NullifyStep::Delete
                }
            },
            NullifyEvent::Deleted => {
                *self = MemMap::new_null();
                NullifyStep::Finished(Ok(()))
            },
        }
    }

    /// One step of initializing the map: from the map as it stands and the
    /// last answer of the C side, the map afterwards and the next request.
    pub open spec fn init_transition(self, event: InitEvent) -> (MemMap, InitStep) {
        match event {
            InitEvent::Start => if !self.initialized() {
                (self, InitStep::MapFile)
            } else if !self.readonly() {
                (self, InitStep::Sync)
            } else {
                (self, InitStep::Delete)
            },
            InitEvent::Synced(err) => if err != 0 {
                (self, InitStep::Finished(Err(init_code::ERR_NULLIFY)))
            } else {
                (self, InitStep::Delete)
            },
            InitEvent::Deleted => (MemMap::null(), InitStep::MapFile),
            InitEvent::Mapped(code, mapped) => if code == init_code::OK {
                (mapped, InitStep::Finished(Ok(())))
            } else {
                (mapped, InitStep::Finished(Err(code)))
            },
        }
    }

    /// Initializes the map, plainly or as a secret map: a map that already
    /// maps something is first released as `nullify` does, and when that fails
    /// the operation ends with `Err(ERR_NULLIFY)`; then the file is mapped, and
    /// the status code of the mapping is the outcome: `Ok` for `OK`, else the code.
    pub fn init(&mut self, event: InitEvent) -> (r: InitStep)
        ensures
            (*final(self), r) == old(self).init_transition(event),
            event is Deleted ==> final(self).is_empty_map(),
    {
        match event {
            InitEvent::Start => {
                if !self.is_initialized() {
                    InitStep::MapFile
                } else if !self.is_readonly() {
                    InitStep::Sync
                } else {
                    InitStep::Delete
                }
            },
            InitEvent::Synced(err) => {
                if err != 0 {
                    InitStep::Finished(Err(init_code::ERR_NULLIFY))
                } else {
                    InitStep::Delete
                }
            },
            InitEvent::Deleted => {
                *self = MemMap::new_null();
                InitStep::MapFile
            },
            InitEvent::Mapped(code, mapped) => {
                *self = mapped;
                if code == init_code::OK {
                    InitStep::Finished(Ok(()))
                } else {
                    InitStep::Finished(Err(code))
                }
            },
        }
    }

    /// The flag bits of a new map: those that the mapping left, with the
    /// read-only bit added when `flags` asks for read-only.
    pub open spec fn new_flag_bits(mapped: BitFlag8, flags: BitFlag) -> BitFlag8 {
        if flags & init_flag::READ_ONLY != 0 {
            mapped | flag::READ_ONLY
        } else {
            mapped
        }
    }

    /// One step of making a new map: from the map as it stands, the last
    /// answer of the C side and the options `flags`, the map afterwards and
    /// the next request.
    pub open spec fn new_transition(self, event: NewEvent, flags: BitFlag) -> (MemMap, NewStep) {
        match event {
            NewEvent::Start => (MemMap::null(), NewStep::MapFile),
            NewEvent::Mapped(code, mapped) => if code == init_code::OK {
                (
                    mapped.with_flags(MemMap::new_flag_bits(mapped.flag_bits(), flags)),
                    NewStep::Finished(Ok(())),
                )
            } else {
                let release = mapped.nullify_transition(NullifyEvent::Start);
                match release.1 {
                    NullifyStep::Sync => (release.0, NewStep::Sync(code)),
                    NullifyStep::Delete => (release.0, NewStep::Delete(code)),
                    NullifyStep::Finished(_) => (release.0, NewStep::Finished(Err(code))),
                }
            },
            NewEvent::Synced(code, err) => if err != 0 {
                (self, NewStep::ReleaseFailed(code))
            } else {
                (self, NewStep::Delete(code))
            },
            NewEvent::Deleted(code) => (MemMap::null(), NewStep::Finished(Err(code))),
        }
    }

    /// Makes a new map: the file is mapped into the map of nothing; on
    /// success the map is kept, marked read-only when `flags` asks for it; on
    /// failure what the mapping left is released as `nullify` does, and the
    /// mapping's status code is the outcome.
    pub fn new(&mut self, event: NewEvent, flags: BitFlag) -> (r: NewStep)
        ensures
            (*final(self), r) == old(self).new_transition(event, flags),
            event matches NewEvent::Mapped(code, mapped) ==> (code == init_code::OK ==> (
            final(self).address() == mapped.address() && final(self).length()
                == mapped.length() && final(self).file_handle() == mapped.file_handle()
                && final(self).flag_bits() == MemMap::new_flag_bits(mapped.flag_bits(), flags))),
            r matches NewStep::Finished(Err(_)) ==> final(self).is_empty_map(),
            event is Start ==> final(self).is_empty_map(),
    {
        match event {
            NewEvent::Start => {
                *self = MemMap::new_null();
                NewStep::MapFile
            },
            NewEvent::Mapped(code, mapped) => {
                *self = mapped;
                if code == init_code::OK {
                    if flags & init_flag::READ_ONLY != 0 {
                        self.flags = self.flags | flag::READ_ONLY;
                    }
                    NewStep::Finished(Ok(()))
                } else {
                    match self.nullify(NullifyEvent::Start) {
                        NullifyStep::Sync => NewStep::Sync(code),
                        NullifyStep::Delete => NewStep::Delete(code),
                        NullifyStep::Finished(_) => NewStep::Finished(Err(code)),
                    }
                }
            },
            NewEvent::Synced(code, err) => {
                if err != 0 {
                    NewStep::ReleaseFailed(code)
                } else {
                    NewStep::Delete(code)
                }
            },
            NewEvent::Deleted(code) => {
                *self = MemMap::new_null();
                NewStep::Finished(Err(code))
            },
        }
    }

    /// Makes a new secret map: as `new` with no options, so the map is kept
    /// with the flags that the secret mapping gave it.
    pub fn new_secret(&mut self, event: NewEvent) -> (r: NewStep)
        ensures
            (*final(self), r) == old(self).new_transition(event, 0),
    {
        self.new(event, 0)
    }
}

impl Default for MemMap {
    /// The map of nothing.
    fn default() -> (m: MemMap)
        ensures
            m == MemMap::null(),
            m.is_empty_map(),
    {
        MemMap::new_null()
    }
}

/// The whole of `MemMap::nullify` when a driver performs each request and the
/// synchronisation, if requested, returns `sync_err`: the map and the step the
/// operation ends on, and whether the release of the mapping was requested.
pub open spec fn nullify_run(m: MemMap, sync_err: Error) -> (MemMap, NullifyStep, bool) {
    let first = m.nullify_transition(NullifyEvent::Start);
    let after_delete = |x: MemMap|
        (
            x.nullify_transition(NullifyEvent::Deleted).0,
            x.nullify_transition(NullifyEvent::Deleted).1,
            true,
        );
    match first.1 {
        NullifyStep::Sync => {
            let second = first.0.nullify_transition(NullifyEvent::Synced(sync_err));
            match second.1 {
                NullifyStep::Delete => after_delete(second.0),
                _ => (second.0, second.1, false),
            }
        },
        NullifyStep::Delete => after_delete(first.0),
        _ => (first.0, first.1, false),
    }
}

/// Releasing a map always ends with the map of nothing and `Ok(())`, except
/// when the map is mapped and writable and its synchronisation fails: then the
/// outcome is `Err(())` and the map is left as it was. A mapped map that is
/// released has had its mapping released by the C side first; a read-only
/// map is never synchronised, and releasing a map that maps nothing asks
/// nothing of the C side.
pub proof fn lemma_nullify_protocol(m: MemMap, sync_err: Error)
    ensures
        m.initialized() && !m.readonly() && sync_err != 0 ==> nullify_run(m, sync_err) == (
            m,
            NullifyStep::Finished(Err(())),
            false,
        ),
        !(m.initialized() && !m.readonly() && sync_err != 0) ==> nullify_run(m, sync_err).0
            == MemMap::null() && nullify_run(m, sync_err).1 == NullifyStep::Finished(Ok(()))
            && nullify_run(m, sync_err).0.is_empty_map(),
        nullify_run(m, sync_err).2 <==> (m.initialized() && (m.readonly() || sync_err == 0)),
        m.initialized() && m.readonly() ==> m.nullify_transition(NullifyEvent::Start).1
            is Delete,
        MemMap::null().nullify_transition(NullifyEvent::Start) == (
            MemMap::null(),
            NullifyStep::Finished(Ok(())),
        ),
{
    lemma_null_map(m);
}

/// What each answer of the C side leads `nullify` to, for every map:
/// - it ends with `Ok(())` only on the map of nothing, and only when the
///   mapping was released or there was none;
/// - it ends with `Err(())` only on a failed synchronisation, leaving the map;
/// - it asks to synchronise only a mapped, writable map, at the start;
/// - after a successful synchronisation it always asks for the release, and
///   after the release it always ends with `Ok(())` on the map of nothing.
pub proof fn lemma_nullify_steps(m: MemMap, event: NullifyEvent)
    ensures
        ({
            let (after, step) = m.nullify_transition(event);
            &&& step matches NullifyStep::Finished(Ok(())) ==> after.is_empty_map() && (event
                is Deleted || (event is Start && !m.initialized()))
            &&& step matches NullifyStep::Finished(Err(())) ==> after == m && (event matches NullifyEvent::Synced(err) && err != 0)
            &&& step is Sync ==> after == m && event is Start && m.initialized() && !m.readonly()
            &&& step is Delete ==> after == m && ((event is Start && m.initialized()
                && m.readonly()) || event == NullifyEvent::Synced(0))
            &&& event == NullifyEvent::Synced(0) ==> step is Delete
            &&& event is Deleted ==> step == NullifyStep::Finished(Ok(())) && after.is_empty_map()
            &&& (event is Start && !m.initialized()) ==> step == NullifyStep::Finished(Ok(()))
                && after.is_empty_map()
        }),
{
    lemma_null_map(m);
}

/// The whole of `MemMap::init` when a driver performs each request, the
/// synchronisation of the old mapping, if requested, returns `sync_err`, and
/// the mapping returns `code` and leaves the map as `mapped`: the map and the
/// step the operation ends on, and whether the mapping was requested.
pub open spec fn init_run(m: MemMap, sync_err: Error, code: CodeError, mapped: MemMap) -> (
    MemMap,
    InitStep,
    bool,
) {
    let map_file = |x: MemMap|
        (
            x.init_transition(InitEvent::Mapped(code, mapped)).0,
            x.init_transition(InitEvent::Mapped(code, mapped)).1,
            true,
        );
    let after_delete = |x: MemMap|
        if x.init_transition(InitEvent::Deleted).1 is MapFile {
            map_file(x.init_transition(InitEvent::Deleted).0)
        } else {
            (x.init_transition(InitEvent::Deleted).0, x.init_transition(InitEvent::Deleted).1, false)
        };
    let first = m.init_transition(InitEvent::Start);
    match first.1 {
        InitStep::MapFile => map_file(first.0),
        InitStep::Sync => {
            let second = first.0.init_transition(InitEvent::Synced(sync_err));
            match second.1 {
                InitStep::Delete => after_delete(second.0),
                _ => (second.0, second.1, false),
            }
        },
        InitStep::Delete => after_delete(first.0),
        _ => (first.0, first.1, false),
    }
}

/// Initializing a map always maps the file, and ends with the map as the
/// mapping left it and the mapping's own status code as outcome (`Ok(())` for
/// `OK`, else `Err` of that very code), except when an old writable mapping
/// cannot be synchronised: then nothing is mapped, the outcome is
/// `Err(ERR_NULLIFY)` and the map is left as it was.
pub proof fn lemma_init_protocol(m: MemMap, sync_err: Error, code: CodeError, mapped: MemMap)
    ensures
        m.initialized() && !m.readonly() && sync_err != 0 ==> init_run(m, sync_err, code, mapped)
            == (m, InitStep::Finished(Err(init_code::ERR_NULLIFY)), false),
        !(m.initialized() && !m.readonly() && sync_err != 0) ==> init_run(
            m,
            sync_err,
            code,
            mapped,
        ).0 == mapped && init_run(m, sync_err, code, mapped).2 && (code == init_code::OK
            ==> init_run(m, sync_err, code, mapped).1 == InitStep::Finished(Ok(()))) && (code
            != init_code::OK ==> init_run(m, sync_err, code, mapped).1 == InitStep::Finished(
            Err(code),
        )),
{
}

/// What each answer of the C side leads `init` to, for every map:
/// - it ends with `Ok(())` only when the mapping reported `OK`, keeping the
///   map the mapping left;
/// - it ends with `Err(c)` only with the mapping's own nonzero code `c`, or
///   with `ERR_NULLIFY` after a failed synchronisation of the old mapping;
/// - after the old mapping is released it always asks for the mapping, into
///   the map of nothing; on a map that maps nothing it asks for it at once.
pub proof fn lemma_init_steps(m: MemMap, event: InitEvent)
    ensures
        ({
            let (after, step) = m.init_transition(event);
            &&& step matches InitStep::Finished(Ok(())) ==> (event matches InitEvent::Mapped(
                code,
                mapped,
            ) && code == init_code::OK && after == mapped)
            &&& step matches InitStep::Finished(Err(c)) ==> ((event matches InitEvent::Mapped(
                code,
                mapped,
            ) && code != init_code::OK && c == code && after == mapped) || (event matches InitEvent::Synced(
                err,
            ) && err != 0 && c == init_code::ERR_NULLIFY && after == m))
            &&& event matches InitEvent::Mapped(code, mapped) ==> (after == mapped && (code
                == init_code::OK ==> step == InitStep::Finished(Ok(()))) && (code
                != init_code::OK ==> step == InitStep::Finished(Err(code))))
            &&& event is Deleted ==> step is MapFile && after.is_empty_map()
            &&& event == InitEvent::Synced(0) ==> step is Delete && after == m
            &&& (event is Start && !m.initialized()) ==> step is MapFile && after == m
            &&& step is Sync ==> event is Start && m.initialized() && !m.readonly() && after == m
            &&& step is Delete ==> after == m && ((event is Start && m.initialized() && m.readonly()) || event == InitEvent::Synced(0))
        }),
{
    lemma_null_map(m);
}

/// The file is mapped only into a map that maps nothing: whenever `init`
/// asks for the mapping, the map it leaves is not initialized.
pub proof fn lemma_init_maps_only_into_null(m: MemMap, event: InitEvent)
    ensures
        m.init_transition(event).1 is MapFile ==> !m.init_transition(event).0.initialized(),
{
}

/// The map of nothing maps nothing: address zero, size zero, the null file
/// handle and no flags, so it is neither read-only nor secret. It is the only
/// map with these fields.
pub proof fn lemma_null_map(m: MemMap)
    ensures
        MemMap::null().is_empty_map(),
        MemMap::null().address() == 0,
        MemMap::null().flag_bits() == 0,
        MemMap::null().file_handle() == file::NULL,
        m.is_empty_map() <==> m == MemMap::null(),
        !MemMap::null().initialized(),
        MemMap::null().length() == 0,
        !MemMap::null().readonly(),
        !MemMap::null().secret(),
{
    assert(0u8 & 1u8 == 0u8) by (bit_vector);
    assert(0u8 & 2u8 == 0u8) by (bit_vector);
}

/// A new map keeps what the mapping left but for the flag bits. Made with
/// the read-only option it is read-only; without it, it is read-only exactly
/// when the mapping marked it so. Secrecy is as the mapping left it.
pub proof fn lemma_new_readonly(mapped: MemMap, flags: BitFlag)
    ensures
        forall|b: BitFlag8|
            #![trigger mapped.with_flags(b)]
            mapped.with_flags(b).address() == mapped.address() && mapped.with_flags(b).length()
                == mapped.length() && mapped.with_flags(b).file_handle() == mapped.file_handle()
                && mapped.with_flags(b).flag_bits() == b,
        flags & init_flag::READ_ONLY != 0 ==> MemMap::new_flag_bits(mapped.flag_bits(), flags)
            & flag::READ_ONLY != 0,
        flags & init_flag::READ_ONLY == 0 ==> MemMap::new_flag_bits(mapped.flag_bits(), flags)
            == mapped.flag_bits(),
        (MemMap::new_flag_bits(mapped.flag_bits(), flags) & flag::SECRET != 0) == (
        mapped.flag_bits() & flag::SECRET != 0),
{
    let b = mapped.flag_bits();
    assert((b | 1u8) & 1u8 != 0u8) by (bit_vector);
    assert(((b | 1u8) & 2u8 != 0u8) == (b & 2u8 != 0u8)) by (bit_vector);
}

/// The whole of `MemMap::new` when a driver performs each request, the
/// mapping returns `code` and leaves the map as `mapped`, and a requested
/// synchronisation of what a failed mapping left returns `sync_err`: the map
/// and the step the operation ends on, and whether the mapping was requested.
pub open spec fn new_run(
    m: MemMap,
    flags: BitFlag,
    code: CodeError,
    mapped: MemMap,
    sync_err: Error,
) -> (MemMap, NewStep, bool) {
    let first = m.new_transition(NewEvent::Start, flags);
    let second = first.0.new_transition(NewEvent::Mapped(code, mapped), flags);
    let after_delete = |x: MemMap|
        (
            x.new_transition(NewEvent::Deleted(code), flags).0,
            x.new_transition(NewEvent::Deleted(code), flags).1,
            true,
        );
    if !(first.1 is MapFile) {
        (first.0, first.1, false)
    } else {
        match second.1 {
            NewStep::Sync(_) => {
                let third = second.0.new_transition(NewEvent::Synced(code, sync_err), flags);
                match third.1 {
                    NewStep::Delete(_) => after_delete(third.0),
                    _ => (third.0, third.1, true),
                }
            },
            NewStep::Delete(_) => after_delete(second.0),
            _ => (second.0, second.1, true),
        }
    }
}

/// Making a new map always maps the file, whatever the options, and succeeds
/// exactly when the mapping reports `OK`; then it keeps the map the mapping
/// left, with the read-only bit added when asked for. When the mapping fails,
/// what it left is released as `nullify` does and the outcome is the
/// mapping's own status code; the map ends as the map of nothing. The one
/// exception is a failed mapping that left a mapped, writable map whose
/// synchronisation fails: then the release cannot be done.
pub proof fn lemma_new_protocol(
    m: MemMap,
    flags: BitFlag,
    code: CodeError,
    mapped: MemMap,
    sync_err: Error,
)
    ensures
        new_run(m, flags, code, mapped, sync_err).2,
        code == init_code::OK ==> new_run(m, flags, code, mapped, sync_err).1 == NewStep::Finished(
            Ok(()),
        ) && new_run(m, flags, code, mapped, sync_err).0 == mapped.with_flags(
            MemMap::new_flag_bits(mapped.flag_bits(), flags),
        ),
        code != init_code::OK && mapped.initialized() && !mapped.readonly() && sync_err != 0
            ==> new_run(m, flags, code, mapped, sync_err) == (
            mapped,
            NewStep::ReleaseFailed(code),
            true,
        ),
        code != init_code::OK && !(mapped.initialized() && !mapped.readonly() && sync_err != 0)
            ==> new_run(m, flags, code, mapped, sync_err) == (
            MemMap::null(),
            NewStep::Finished(Err(code)),
            true,
        ),
{
}

/// What each answer of the C side leads `new` to, for every map and options:
/// - at the start it always asks for the mapping, into the map of nothing,
///   whatever the options;
/// - it ends with `Ok(())` only when the mapping reported `OK`;
/// - it ends with `Err(c)` only with the mapping's own nonzero code `c`, and
///   then on the map of nothing, after the release of a mapped leftover;
/// - a failed mapping that left something mapped always has it released.
pub proof fn lemma_new_steps(m: MemMap, event: NewEvent, flags: BitFlag, other_flags: BitFlag)
    ensures
        ({
            let (after, step) = m.new_transition(event, flags);
            &&& event is Start ==> step is MapFile && after.is_empty_map() && m.new_transition(
                event,
                other_flags,
            ) == (after, step)
            &&& step matches NewStep::Finished(Ok(())) ==> (event matches NewEvent::Mapped(
                code,
                mapped,
            ) && code == init_code::OK)
            &&& step matches NewStep::Finished(Err(c)) ==> after.is_empty_map() && ((event matches NewEvent::Mapped(
                code,
                mapped,
            ) && code != init_code::OK && c == code && !mapped.initialized()) || (event
                == NewEvent::Deleted(c)))
            &&& event matches NewEvent::Mapped(code, mapped) ==> (code != init_code::OK
                && mapped.initialized() ==> (step == NewStep::Sync(code) || step
                == NewStep::Delete(code)) && after == mapped)
            &&& event matches NewEvent::Synced(code, err) ==> (err == 0 ==> step == NewStep::Delete(
                code,
            )) && (err != 0 ==> step == NewStep::ReleaseFailed(code)) && after == m
            &&& event matches NewEvent::Deleted(code) ==> step == NewStep::Finished(Err(code))
                && after.is_empty_map()
        }),
{
    lemma_null_map(m);
}

} // verus!
