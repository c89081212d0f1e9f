use vstd::prelude::*;

verus! {

/// The closed set of status codes that the middleware reports.
///
/// `Success` and the `Err*` kinds carry the middleware's published numbering
/// (see [`code_of`]); `ErrUnknown` stands for every code outside that
/// table, so that statuses introduced by later middleware versions still
/// decode to a kind instead of failing.
#[derive(Clone, Copy, Debug, PartialEq, Eq, Structural)]
pub enum FmodResult {
    Success,
    ErrBadCommand,
    ErrChannelAlloc,
    ErrChannelStolen,
    ErrDMA,
    ErrDSPConnection,
    ErrDSPDontProcess,
    ErrDSPFormat,
    ErrDSPInUse,
    ErrDSPNotFound,
    ErrDSPPReserved,
    ErrDSPSilence,
    ErrDSPTtype,
    ErrFileBad,
    ErrFileCouldNotSeek,
    ErrFileDiskEjected,
    ErrFileEOF,
    ErrFileEndOfData,
    ErrFileNotFound,
    ErrFormat,
    ErrHeaderMismatch,
    ErrHTTP,
    ErrHTTPAccess,
    ErrHTTPProxyAuth,
    ErrHTTPServerError,
    ErrHTTPTimeout,
    ErrInitialization,
    ErrInitialized,
    ErrInternal,
    ErrInvalidFloat,
    ErrInvalidHandle,
    ErrInvalidParam,
    ErrInvalidPosition,
    ErrInvalidSpeaker,
    ErrInvalidSyncPOINT,
    ErrInvalidThread,
    ErrInvalidVector,
    ErrMaxAudible,
    ErrMemory,
    ErrMemoryCantPoint,
    ErrNeeds3D,
    ErrNeedsHardware,
    ErrNetConnect,
    ErrNetSocketError,
    ErrNetURL,
    ErrNetWouldBlock,
    ErrNotReady,
    ErrOutputAllocated,
    ErrOutputCreateBuffer,
    ErrOutputDriverCall,
    ErrOutputFormat,
    ErrOutputInit,
    ErrOutputNoDrivers,
    ErrPlugin,
    ErrPluginMissing,
    ErrPluginResource,
    ErrPluginVersion,
    ErrRecord,
    ErrReverbChannelGroup,
    ErrReverbInstance,
    ErrSubsounds,
    ErrSubsoundAllocated,
    ErrSubsoundCantMove,
    ErrTagNotFound,
    ErrTooManyChannels,
    ErrTruncated,
    ErrUnimplemented,
    ErrUnitialized,
    ErrUnsupported,
    ErrVersion,
    ErrEventAlreadyLoaded,
    ErrEventLiveUpdateBusy,
    ErrEventLiveUpdateMismatch,
    ErrEventLiveUpdateTimeout,
    ErrEventNotFound,
    ErrStudioUnitialized,
    ErrStudioNotLoaded,
    ErrInvalidString,
    ErrAlreadyLocked,
    ErrNotLocked,
    ErrRecordDisconnected,
    ErrTooManySamples,
    ErrUnknown,
}

/// The largest code in the middleware's published table.
pub const LAST_KNOWN_CODE: i32 = 81;

/// The published numeric value of each status kind. `ErrUnknown` is given
/// the first value past the table.
pub open spec fn code_of(r: FmodResult) -> int {
    match r {
        FmodResult::Success => 0,
        FmodResult::ErrBadCommand => 1,
        FmodResult::ErrChannelAlloc => 2,
        FmodResult::ErrChannelStolen => 3,
        FmodResult::ErrDMA => 4,
        FmodResult::ErrDSPConnection => 5,
        FmodResult::ErrDSPDontProcess => 6,
        FmodResult::ErrDSPFormat => 7,
        FmodResult::ErrDSPInUse => 8,
        FmodResult::ErrDSPNotFound => 9,
        FmodResult::ErrDSPPReserved => 10,
        FmodResult::ErrDSPSilence => 11,
        FmodResult::ErrDSPTtype => 12,
        FmodResult::ErrFileBad => 13,
        FmodResult::ErrFileCouldNotSeek => 14,
        FmodResult::ErrFileDiskEjected => 15,
        FmodResult::ErrFileEOF => 16,
        FmodResult::ErrFileEndOfData => 17,
        FmodResult::ErrFileNotFound => 18,
        FmodResult::ErrFormat => 19,
        FmodResult::ErrHeaderMismatch => 20,
        FmodResult::ErrHTTP => 21,
        FmodResult::ErrHTTPAccess => 22,
        FmodResult::ErrHTTPProxyAuth => 23,
        FmodResult::ErrHTTPServerError => 24,
        FmodResult::ErrHTTPTimeout => 25,
        FmodResult::ErrInitialization => 26,
        FmodResult::ErrInitialized => 27,
        FmodResult::ErrInternal => 28,
        FmodResult::ErrInvalidFloat => 29,
        FmodResult::ErrInvalidHandle => 30,
        FmodResult::ErrInvalidParam => 31,
        FmodResult::ErrInvalidPosition => 32,
        FmodResult::ErrInvalidSpeaker => 33,
        FmodResult::ErrInvalidSyncPOINT => 34,
        FmodResult::ErrInvalidThread => 35,
        FmodResult::ErrInvalidVector => 36,
        FmodResult::ErrMaxAudible => 37,
        FmodResult::ErrMemory => 38,
        FmodResult::ErrMemoryCantPoint => 39,
        FmodResult::ErrNeeds3D => 40,
        FmodResult::ErrNeedsHardware => 41,
        FmodResult::ErrNetConnect => 42,
        FmodResult::ErrNetSocketError => 43,
        FmodResult::ErrNetURL => 44,
        FmodResult::ErrNetWouldBlock => 45,
        FmodResult::ErrNotReady => 46,
        FmodResult::ErrOutputAllocated => 47,
        FmodResult::ErrOutputCreateBuffer => 48,
        FmodResult::ErrOutputDriverCall => 49,
        FmodResult::ErrOutputFormat => 50,
        FmodResult::ErrOutputInit => 51,
        FmodResult::ErrOutputNoDrivers => 52,
        FmodResult::ErrPlugin => 53,
        FmodResult::ErrPluginMissing => 54,
        FmodResult::ErrPluginResource => 55,
        FmodResult::ErrPluginVersion => 56,
        FmodResult::ErrRecord => 57,
        FmodResult::ErrReverbChannelGroup => 58,
        FmodResult::ErrReverbInstance => 59,
        FmodResult::ErrSubsounds => 60,
        FmodResult::ErrSubsoundAllocated => 61,
        FmodResult::ErrSubsoundCantMove => 62,
        FmodResult::ErrTagNotFound => 63,
        FmodResult::ErrTooManyChannels => 64,
        FmodResult::ErrTruncated => 65,
        FmodResult::ErrUnimplemented => 66,
        FmodResult::ErrUnitialized => 67,
        FmodResult::ErrUnsupported => 68,
        FmodResult::ErrVersion => 69,
        FmodResult::ErrEventAlreadyLoaded => 70,
        FmodResult::ErrEventLiveUpdateBusy => 71,
        FmodResult::ErrEventLiveUpdateMismatch => 72,
        FmodResult::ErrEventLiveUpdateTimeout => 73,
        FmodResult::ErrEventNotFound => 74,
        FmodResult::ErrStudioUnitialized => 75,
        FmodResult::ErrStudioNotLoaded => 76,
        FmodResult::ErrInvalidString => 77,
        FmodResult::ErrAlreadyLocked => 78,
        FmodResult::ErrNotLocked => 79,
        FmodResult::ErrRecordDisconnected => 80,
        FmodResult::ErrTooManySamples => 81,
        FmodResult::ErrUnknown => 82,
    }
}

/// A code that the published table assigns to a kind.
pub open spec fn is_known_code(code: int) -> bool {
    0 <= code <= LAST_KNOWN_CODE
}

impl FmodResult {
    /// Decodes a status code. Codes outside the published table become
    /// `ErrUnknown`; no code is refused.
    pub fn from_code(code: i32) -> (r: FmodResult)
        ensures
            is_known_code(code as int) ==> code_of(r) == code,
            is_known_code(code as int) ==> forall|k: FmodResult| code_of(k) == code ==> k == r,
            !is_known_code(code as int) ==> r == FmodResult::ErrUnknown,
    {
        let r = match code {
            0 => FmodResult::Success,
            1 => FmodResult::ErrBadCommand,
            2 => FmodResult::ErrChannelAlloc,
            3 => FmodResult::ErrChannelStolen,
            4 => FmodResult::ErrDMA,
            5 => FmodResult::ErrDSPConnection,
            6 => FmodResult::ErrDSPDontProcess,
            7 => FmodResult::ErrDSPFormat,
            8 => FmodResult::ErrDSPInUse,
            9 => FmodResult::ErrDSPNotFound,
            10 => FmodResult::ErrDSPPReserved,
            11 => FmodResult::ErrDSPSilence,
            12 => FmodResult::ErrDSPTtype,
            13 => FmodResult::ErrFileBad,
            14 => FmodResult::ErrFileCouldNotSeek,
            15 => FmodResult::ErrFileDiskEjected,
            16 => FmodResult::ErrFileEOF,
            17 => FmodResult::ErrFileEndOfData,
            18 => FmodResult::ErrFileNotFound,
            19 => FmodResult::ErrFormat,
            20 => FmodResult::ErrHeaderMismatch,
            21 => FmodResult::ErrHTTP,
            22 => FmodResult::ErrHTTPAccess,
            23 => FmodResult::ErrHTTPProxyAuth,
            24 => FmodResult::ErrHTTPServerError,
            25 => FmodResult::ErrHTTPTimeout,
            26 => FmodResult::ErrInitialization,
            27 => FmodResult::ErrInitialized,
            28 => FmodResult::ErrInternal,
            29 => FmodResult::ErrInvalidFloat,
            30 => FmodResult::ErrInvalidHandle,
            31 => FmodResult::ErrInvalidParam,
            32 => FmodResult::ErrInvalidPosition,
            33 => FmodResult::ErrInvalidSpeaker,
            34 => FmodResult::ErrInvalidSyncPOINT,
            35 => FmodResult::ErrInvalidThread,
            36 => FmodResult::ErrInvalidVector,
            37 => FmodResult::ErrMaxAudible,
            38 => FmodResult::ErrMemory,
            39 => FmodResult::ErrMemoryCantPoint,
            40 => FmodResult::ErrNeeds3D,
            41 => FmodResult::ErrNeedsHardware,
            42 => FmodResult::ErrNetConnect,
            43 => FmodResult::ErrNetSocketError,
            44 => FmodResult::ErrNetURL,
            45 => FmodResult::ErrNetWouldBlock,
            46 => FmodResult::ErrNotReady,
            47 => FmodResult::ErrOutputAllocated,
            48 => FmodResult::ErrOutputCreateBuffer,
            49 => FmodResult::ErrOutputDriverCall,
            50 => FmodResult::ErrOutputFormat,
            51 => FmodResult::ErrOutputInit,
            52 => FmodResult::ErrOutputNoDrivers,
            53 => FmodResult::ErrPlugin,
            54 => FmodResult::ErrPluginMissing,
            55 => FmodResult::ErrPluginResource,
            56 => FmodResult::ErrPluginVersion,
            57 => FmodResult::ErrRecord,
            58 => FmodResult::ErrReverbChannelGroup,
            59 => FmodResult::ErrReverbInstance,
            60 => FmodResult::ErrSubsounds,
            61 => FmodResult::ErrSubsoundAllocated,
            62 => FmodResult::ErrSubsoundCantMove,
            63 => FmodResult::ErrTagNotFound,
            64 => FmodResult::ErrTooManyChannels,
            65 => FmodResult::ErrTruncated,
            66 => FmodResult::ErrUnimplemented,
            67 => FmodResult::ErrUnitialized,
            68 => FmodResult::ErrUnsupported,
            69 => FmodResult::ErrVersion,
            70 => FmodResult::ErrEventAlreadyLoaded,
            71 => FmodResult::ErrEventLiveUpdateBusy,
            72 => FmodResult::ErrEventLiveUpdateMismatch,
            73 => FmodResult::ErrEventLiveUpdateTimeout,
            74 => FmodResult::ErrEventNotFound,
            75 => FmodResult::ErrStudioUnitialized,
            76 => FmodResult::ErrStudioNotLoaded,
            77 => FmodResult::ErrInvalidString,
            78 => FmodResult::ErrAlreadyLocked,
            79 => FmodResult::ErrNotLocked,
            80 => FmodResult::ErrRecordDisconnected,
            81 => FmodResult::ErrTooManySamples,
            _ => FmodResult::ErrUnknown,
        };
        proof {
            assert forall|k: FmodResult| code_of(k) == code && is_known_code(code as int) implies k
                == r by {
                lemma_code_of_injective(k, r);
            }
        }
        r
    }

    /// The published numeric value of this kind.
    pub fn code(self) -> (c: i32)
        ensures
            c == code_of(self),
    {
        match self {
            FmodResult::Success => 0,
            FmodResult::ErrBadCommand => 1,
            FmodResult::ErrChannelAlloc => 2,
            FmodResult::ErrChannelStolen => 3,
            FmodResult::ErrDMA => 4,
            FmodResult::ErrDSPConnection => 5,
            FmodResult::ErrDSPDontProcess => 6,
            FmodResult::ErrDSPFormat => 7,
            FmodResult::ErrDSPInUse => 8,
            FmodResult::ErrDSPNotFound => 9,
            FmodResult::ErrDSPPReserved => 10,
            FmodResult::ErrDSPSilence => 11,
            FmodResult::ErrDSPTtype => 12,
            FmodResult::ErrFileBad => 13,
            FmodResult::ErrFileCouldNotSeek => 14,
            FmodResult::ErrFileDiskEjected => 15,
            FmodResult::ErrFileEOF => 16,
            FmodResult::ErrFileEndOfData => 17,
            FmodResult::ErrFileNotFound => 18,
            FmodResult::ErrFormat => 19,
            FmodResult::ErrHeaderMismatch => 20,
            FmodResult::ErrHTTP => 21,
            FmodResult::ErrHTTPAccess => 22,
            FmodResult::ErrHTTPProxyAuth => 23,
            FmodResult::ErrHTTPServerError => 24,
            FmodResult::ErrHTTPTimeout => 25,
            FmodResult::ErrInitialization => 26,
            FmodResult::ErrInitialized => 27,
            FmodResult::ErrInternal => 28,
            FmodResult::ErrInvalidFloat => 29,
            FmodResult::ErrInvalidHandle => 30,
            FmodResult::ErrInvalidParam => 31,
            FmodResult::ErrInvalidPosition => 32,
            FmodResult::ErrInvalidSpeaker => 33,
            FmodResult::ErrInvalidSyncPOINT => 34,
            FmodResult::ErrInvalidThread => 35,
            FmodResult::ErrInvalidVector => 36,
            FmodResult::ErrMaxAudible => 37,
            FmodResult::ErrMemory => 38,
            FmodResult::ErrMemoryCantPoint => 39,
            FmodResult::ErrNeeds3D => 40,
            FmodResult::ErrNeedsHardware => 41,
            FmodResult::ErrNetConnect => 42,
            FmodResult::ErrNetSocketError => 43,
            FmodResult::ErrNetURL => 44,
            FmodResult::ErrNetWouldBlock => 45,
            FmodResult::ErrNotReady => 46,
            FmodResult::ErrOutputAllocated => 47,
            FmodResult::ErrOutputCreateBuffer => 48,
            FmodResult::ErrOutputDriverCall => 49,
            FmodResult::ErrOutputFormat => 50,
            FmodResult::ErrOutputInit => 51,
            FmodResult::ErrOutputNoDrivers => 52,
            FmodResult::ErrPlugin => 53,
            FmodResult::ErrPluginMissing => 54,
            FmodResult::ErrPluginResource => 55,
            FmodResult::ErrPluginVersion => 56,
            FmodResult::ErrRecord => 57,
            FmodResult::ErrReverbChannelGroup => 58,
            FmodResult::ErrReverbInstance => 59,
            FmodResult::ErrSubsounds => 60,
            FmodResult::ErrSubsoundAllocated => 61,
            FmodResult::ErrSubsoundCantMove => 62,
            FmodResult::ErrTagNotFound => 63,
            FmodResult::ErrTooManyChannels => 64,
            FmodResult::ErrTruncated => 65,
            FmodResult::ErrUnimplemented => 66,
            FmodResult::ErrUnitialized => 67,
            FmodResult::ErrUnsupported => 68,
            FmodResult::ErrVersion => 69,
            FmodResult::ErrEventAlreadyLoaded => 70,
            FmodResult::ErrEventLiveUpdateBusy => 71,
            FmodResult::ErrEventLiveUpdateMismatch => 72,
            FmodResult::ErrEventLiveUpdateTimeout => 73,
            FmodResult::ErrEventNotFound => 74,
            FmodResult::ErrStudioUnitialized => 75,
            FmodResult::ErrStudioNotLoaded => 76,
            FmodResult::ErrInvalidString => 77,
            FmodResult::ErrAlreadyLocked => 78,
            FmodResult::ErrNotLocked => 79,
            FmodResult::ErrRecordDisconnected => 80,
            FmodResult::ErrTooManySamples => 81,
            FmodResult::ErrUnknown => 82,
        }
    }

    /// Whether this is the success status.
    pub fn is_ok(self) -> (b: bool)
        ensures
            b <==> self == FmodResult::Success,
            b <==> code_of(self) == 0,
    {
        match self {
            FmodResult::Success => true,
            _ => false,
        }
    }
}

/// Two kinds with the same published value are the same kind: the table
/// assigns every value at most once.
pub proof fn lemma_code_of_injective(a: FmodResult, b: FmodResult)
    requires
        code_of(a) == code_of(b),
    ensures
        a == b,
{
    let c = code_of(a);
    assert(a == b) by {
        match a {
            FmodResult::Success => { assert(code_of(b) == 0); },
            FmodResult::ErrBadCommand => { assert(code_of(b) == 1); },
            FmodResult::ErrChannelAlloc => { assert(code_of(b) == 2); },
            FmodResult::ErrChannelStolen => { assert(code_of(b) == 3); },
            FmodResult::ErrDMA => { assert(code_of(b) == 4); },
            FmodResult::ErrDSPConnection => { assert(code_of(b) == 5); },
            FmodResult::ErrDSPDontProcess => { assert(code_of(b) == 6); },
            FmodResult::ErrDSPFormat => { assert(code_of(b) == 7); },
            FmodResult::ErrDSPInUse => { assert(code_of(b) == 8); },
            FmodResult::ErrDSPNotFound => { assert(code_of(b) == 9); },
            FmodResult::ErrDSPPReserved => { assert(code_of(b) == 10); },
            FmodResult::ErrDSPSilence => { assert(code_of(b) == 11); },
            FmodResult::ErrDSPTtype => { assert(code_of(b) == 12); },
            FmodResult::ErrFileBad => { assert(code_of(b) == 13); },
            FmodResult::ErrFileCouldNotSeek => { assert(code_of(b) == 14); },
            FmodResult::ErrFileDiskEjected => { assert(code_of(b) == 15); },
            FmodResult::ErrFileEOF => { assert(code_of(b) == 16); },
            FmodResult::ErrFileEndOfData => { assert(code_of(b) == 17); },
            FmodResult::ErrFileNotFound => { assert(code_of(b) == 18); },
            FmodResult::ErrFormat => { assert(code_of(b) == 19); },
            FmodResult::ErrHeaderMismatch => { assert(code_of(b) == 20); },
            FmodResult::ErrHTTP => { assert(code_of(b) == 21); },
            FmodResult::ErrHTTPAccess => { assert(code_of(b) == 22); },
            FmodResult::ErrHTTPProxyAuth => { assert(code_of(b) == 23); },
            FmodResult::ErrHTTPServerError => { assert(code_of(b) == 24); },
            FmodResult::ErrHTTPTimeout => { assert(code_of(b) == 25); },
            FmodResult::ErrInitialization => { assert(code_of(b) == 26); },
            FmodResult::ErrInitialized => { assert(code_of(b) == 27); },
            FmodResult::ErrInternal => { assert(code_of(b) == 28); },
            FmodResult::ErrInvalidFloat => { assert(code_of(b) == 29); },
            FmodResult::ErrInvalidHandle => { assert(code_of(b) == 30); },
            FmodResult::ErrInvalidParam => { assert(code_of(b) == 31); },
            FmodResult::ErrInvalidPosition => { assert(code_of(b) == 32); },
            FmodResult::ErrInvalidSpeaker => { assert(code_of(b) == 33); },
            FmodResult::ErrInvalidSyncPOINT => { assert(code_of(b) == 34); },
            FmodResult::ErrInvalidThread => { assert(code_of(b) == 35); },
            FmodResult::ErrInvalidVector => { assert(code_of(b) == 36); },
            FmodResult::ErrMaxAudible => { assert(code_of(b) == 37); },
            FmodResult::ErrMemory => { assert(code_of(b) == 38); },
            FmodResult::ErrMemoryCantPoint => { assert(code_of(b) == 39); },
            FmodResult::ErrNeeds3D => { assert(code_of(b) == 40); },
            FmodResult::ErrNeedsHardware => { assert(code_of(b) == 41); },
            FmodResult::ErrNetConnect => { assert(code_of(b) == 42); },
            FmodResult::ErrNetSocketError => { assert(code_of(b) == 43); },
            FmodResult::ErrNetURL => { assert(code_of(b) == 44); },
            FmodResult::ErrNetWouldBlock => { assert(code_of(b) == 45); },
            FmodResult::ErrNotReady => { assert(code_of(b) == 46); },
            FmodResult::ErrOutputAllocated => { assert(code_of(b) == 47); },
            FmodResult::ErrOutputCreateBuffer => { assert(code_of(b) == 48); },
            FmodResult::ErrOutputDriverCall => { assert(code_of(b) == 49); },
            FmodResult::ErrOutputFormat => { assert(code_of(b) == 50); },
            FmodResult::ErrOutputInit => { assert(code_of(b) == 51); },
            FmodResult::ErrOutputNoDrivers => { assert(code_of(b) == 52); },
            FmodResult::ErrPlugin => { assert(code_of(b) == 53); },
            FmodResult::ErrPluginMissing => { assert(code_of(b) == 54); },
            FmodResult::ErrPluginResource => { assert(code_of(b) == 55); },
            FmodResult::ErrPluginVersion => { assert(code_of(b) == 56); },
            FmodResult::ErrRecord => { assert(code_of(b) == 57); },
            FmodResult::ErrReverbChannelGroup => { assert(code_of(b) == 58); },
            FmodResult::ErrReverbInstance => { assert(code_of(b) == 59); },
            FmodResult::ErrSubsounds => { assert(code_of(b) == 60); },
            FmodResult::ErrSubsoundAllocated => { assert(code_of(b) == 61); },
            FmodResult::ErrSubsoundCantMove => { assert(code_of(b) == 62); },
            FmodResult::ErrTagNotFound => { assert(code_of(b) == 63); },
            FmodResult::ErrTooManyChannels => { assert(code_of(b) == 64); },
            FmodResult::ErrTruncated => { assert(code_of(b) == 65); },
            FmodResult::ErrUnimplemented => { assert(code_of(b) == 66); },
            FmodResult::ErrUnitialized => { assert(code_of(b) == 67); },
            FmodResult::ErrUnsupported => { assert(code_of(b) == 68); },
            FmodResult::ErrVersion => { assert(code_of(b) == 69); },
            FmodResult::ErrEventAlreadyLoaded => { assert(code_of(b) == 70); },
            FmodResult::ErrEventLiveUpdateBusy => { assert(code_of(b) == 71); },
            FmodResult::ErrEventLiveUpdateMismatch => { assert(code_of(b) == 72); },
            FmodResult::ErrEventLiveUpdateTimeout => { assert(code_of(b) == 73); },
            FmodResult::ErrEventNotFound => { assert(code_of(b) == 74); },
            FmodResult::ErrStudioUnitialized => { assert(code_of(b) == 75); },
            FmodResult::ErrStudioNotLoaded => { assert(code_of(b) == 76); },
            FmodResult::ErrInvalidString => { assert(code_of(b) == 77); },
            FmodResult::ErrAlreadyLocked => { assert(code_of(b) == 78); },
            FmodResult::ErrNotLocked => { assert(code_of(b) == 79); },
            FmodResult::ErrRecordDisconnected => { assert(code_of(b) == 80); },
            FmodResult::ErrTooManySamples => { assert(code_of(b) == 81); },
            FmodResult::ErrUnknown => { assert(code_of(b) == 82); },
        }
    }
}

} // verus!
