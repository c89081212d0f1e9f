use fmod_test_bed::status::{FmodResult, LAST_KNOWN_CODE};

fn published() -> Vec<(FmodResult, i32)> {
    vec![
        (FmodResult::Success, 0),
        (FmodResult::ErrBadCommand, 1),
        (FmodResult::ErrChannelAlloc, 2),
        (FmodResult::ErrChannelStolen, 3),
        (FmodResult::ErrDMA, 4),
        (FmodResult::ErrDSPConnection, 5),
        (FmodResult::ErrDSPDontProcess, 6),
        (FmodResult::ErrDSPFormat, 7),
        (FmodResult::ErrDSPInUse, 8),
        (FmodResult::ErrDSPNotFound, 9),
        (FmodResult::ErrDSPPReserved, 10),
        (FmodResult::ErrDSPSilence, 11),
        (FmodResult::ErrDSPTtype, 12),
        (FmodResult::ErrFileBad, 13),
        (FmodResult::ErrFileCouldNotSeek, 14),
        (FmodResult::ErrFileDiskEjected, 15),
        (FmodResult::ErrFileEOF, 16),
        (FmodResult::ErrFileEndOfData, 17),
        (FmodResult::ErrFileNotFound, 18),
        (FmodResult::ErrFormat, 19),
        (FmodResult::ErrHeaderMismatch, 20),
        (FmodResult::ErrHTTP, 21),
        (FmodResult::ErrHTTPAccess, 22),
        (FmodResult::ErrHTTPProxyAuth, 23),
        (FmodResult::ErrHTTPServerError, 24),
        (FmodResult::ErrHTTPTimeout, 25),
        (FmodResult::ErrInitialization, 26),
        (FmodResult::ErrInitialized, 27),
        (FmodResult::ErrInternal, 28),
        (FmodResult::ErrInvalidFloat, 29),
        (FmodResult::ErrInvalidHandle, 30),
        (FmodResult::ErrInvalidParam, 31),
        (FmodResult::ErrInvalidPosition, 32),
        (FmodResult::ErrInvalidSpeaker, 33),
        (FmodResult::ErrInvalidSyncPOINT, 34),
        (FmodResult::ErrInvalidThread, 35),
        (FmodResult::ErrInvalidVector, 36),
        (FmodResult::ErrMaxAudible, 37),
        (FmodResult::ErrMemory, 38),
        (FmodResult::ErrMemoryCantPoint, 39),
        (FmodResult::ErrNeeds3D, 40),
        (FmodResult::ErrNeedsHardware, 41),
        (FmodResult::ErrNetConnect, 42),
        (FmodResult::ErrNetSocketError, 43),
        (FmodResult::ErrNetURL, 44),
        (FmodResult::ErrNetWouldBlock, 45),
        (FmodResult::ErrNotReady, 46),
        (FmodResult::ErrOutputAllocated, 47),
        (FmodResult::ErrOutputCreateBuffer, 48),
        (FmodResult::ErrOutputDriverCall, 49),
        (FmodResult::ErrOutputFormat, 50),
        (FmodResult::ErrOutputInit, 51),
        (FmodResult::ErrOutputNoDrivers, 52),
        (FmodResult::ErrPlugin, 53),
        (FmodResult::ErrPluginMissing, 54),
        (FmodResult::ErrPluginResource, 55),
        (FmodResult::ErrPluginVersion, 56),
        (FmodResult::ErrRecord, 57),
        (FmodResult::ErrReverbChannelGroup, 58),
        (FmodResult::ErrReverbInstance, 59),
        (FmodResult::ErrSubsounds, 60),
        (FmodResult::ErrSubsoundAllocated, 61),
        (FmodResult::ErrSubsoundCantMove, 62),
        (FmodResult::ErrTagNotFound, 63),
        (FmodResult::ErrTooManyChannels, 64),
        (FmodResult::ErrTruncated, 65),
        (FmodResult::ErrUnimplemented, 66),
        (FmodResult::ErrUnitialized, 67),
        (FmodResult::ErrUnsupported, 68),
        (FmodResult::ErrVersion, 69),
        (FmodResult::ErrEventAlreadyLoaded, 70),
        (FmodResult::ErrEventLiveUpdateBusy, 71),
        (FmodResult::ErrEventLiveUpdateMismatch, 72),
        (FmodResult::ErrEventLiveUpdateTimeout, 73),
        (FmodResult::ErrEventNotFound, 74),
        (FmodResult::ErrStudioUnitialized, 75),
        (FmodResult::ErrStudioNotLoaded, 76),
        (FmodResult::ErrInvalidString, 77),
        (FmodResult::ErrAlreadyLocked, 78),
        (FmodResult::ErrNotLocked, 79),
        (FmodResult::ErrRecordDisconnected, 80),
        (FmodResult::ErrTooManySamples, 81),
        (FmodResult::ErrUnknown, 82),
    ]
}

#[test]
fn every_kind_has_its_published_code() {
    for (kind, code) in published() {
        assert_eq!(kind.code(), code);
    }
}

#[test]
fn every_published_code_decodes_to_its_kind() {
    for (kind, code) in published() {
        if code <= LAST_KNOWN_CODE {
            assert_eq!(FmodResult::from_code(code), kind);
        }
    }
}

#[test]
fn the_table_covers_every_code_once() {
    let table = published();
    assert_eq!(table.len(), 83);
    for code in 0..=LAST_KNOWN_CODE {
        let hits = table.iter().filter(|(_, c)| *c == code).count();
        assert_eq!(hits, 1);
    }
}

#[test]
fn codes_outside_the_table_are_unknown() {
    assert_eq!(FmodResult::from_code(82), FmodResult::ErrUnknown);
    assert_eq!(FmodResult::from_code(-1), FmodResult::ErrUnknown);
    assert_eq!(FmodResult::from_code(1000), FmodResult::ErrUnknown);
    assert_eq!(FmodResult::from_code(i32::MAX), FmodResult::ErrUnknown);
    assert_eq!(FmodResult::from_code(i32::MIN), FmodResult::ErrUnknown);
}

#[test]
fn decoding_round_trips() {
    for code in 0..=LAST_KNOWN_CODE {
        assert_eq!(FmodResult::from_code(code).code(), code);
    }
}

#[test]
fn only_success_is_ok() {
    assert!(FmodResult::from_code(0).is_ok());
    assert!(FmodResult::Success.is_ok());
    assert!(!FmodResult::ErrInvalidHandle.is_ok());
    assert!(!FmodResult::ErrUnknown.is_ok());
    assert_eq!(FmodResult::from_code(30), FmodResult::ErrInvalidHandle);
    assert_eq!(FmodResult::from_code(74), FmodResult::ErrEventNotFound);
}
