use wasi_sandbox::limiter::{
    BaseBounds, ExceededBound, LimitingTunables, MemoryLimitError, MemoryRequest, MemoryStyle,
    COMPILE_LIMIT, WASM_MAX_PAGES,
};

fn request(minimum: u32, maximum: Option<u32>) -> MemoryRequest {
    MemoryRequest { minimum, maximum, shared: false }
}

fn host_base() -> BaseBounds {
    BaseBounds {
        static_memory_bound: 0x1_0000,
        static_memory_offset_guard_size: 0x8000_0000,
        dynamic_memory_offset_guard_size: 0x1_0000,
    }
}

fn limiter(limit: u32) -> LimitingTunables {
    LimitingTunables::new(host_base(), limit)
}

#[test]
fn new_keeps_limit_and_base() {
    let tunables = LimitingTunables::new(host_base(), 24);
    assert_eq!(tunables.limit(), 24);
    assert_eq!(tunables.base(), host_base());
}

#[test]
fn compile_limit_is_one_page_above_the_format() {
    assert_eq!(WASM_MAX_PAGES, 65536);
    assert_eq!(COMPILE_LIMIT, 65537);
    assert_eq!(wasmer::WASM_MAX_PAGES, WASM_MAX_PAGES);
    let tunables = LimitingTunables::for_compilation(host_base());
    assert_eq!(tunables.limit(), 65537);
    assert_eq!(tunables.base(), host_base());
}

#[test]
fn missing_maximum_becomes_the_limit() {
    let adjusted = limiter(24).adjust_memory(&request(3, None));
    assert_eq!(adjusted, request(3, Some(24)));
    let shared = MemoryRequest { minimum: 1, maximum: None, shared: true };
    assert_eq!(
        limiter(7).adjust_memory(&shared),
        MemoryRequest { minimum: 1, maximum: Some(7), shared: true }
    );
}

#[test]
fn declared_maximum_is_left_alone() {
    assert_eq!(limiter(24).adjust_memory(&request(3, Some(12))), request(3, Some(12)));
    assert_eq!(limiter(24).adjust_memory(&request(3, Some(24))), request(3, Some(24)));
    assert_eq!(limiter(24).adjust_memory(&request(3, Some(99))), request(3, Some(99)));
    assert_eq!(limiter(24).adjust_memory(&request(30, None)), request(30, Some(24)));
}

#[test]
fn minimum_above_the_limit_is_refused() {
    let refused = Err(MemoryLimitError::LimitExceeded(ExceededBound::Minimum));
    assert_eq!(limiter(24).validate_memory(&request(25, Some(30))), refused);
    assert_eq!(limiter(24).validate_memory(&request(25, Some(10))), refused);
    assert_eq!(limiter(24).validate_memory(&request(25, None)), refused);
    assert_eq!(limiter(0).validate_memory(&request(1, Some(0))), refused);
}

#[test]
fn maximum_above_the_limit_is_refused() {
    let refused = Err(MemoryLimitError::LimitExceeded(ExceededBound::Maximum));
    assert_eq!(limiter(24).validate_memory(&request(3, Some(25))), refused);
    assert_eq!(limiter(24).validate_memory(&request(24, Some(u32::MAX))), refused);
}

#[test]
fn unset_maximum_is_refused() {
    assert_eq!(
        limiter(24).validate_memory(&request(3, None)),
        Err(MemoryLimitError::MaximumUnset)
    );
    assert_eq!(
        limiter(24).validate_memory(&request(24, None)),
        Err(MemoryLimitError::MaximumUnset)
    );
}

#[test]
fn request_within_the_limit_is_valid() {
    assert_eq!(limiter(24).validate_memory(&request(3, Some(12))), Ok(()));
    assert_eq!(limiter(24).validate_memory(&request(24, Some(24))), Ok(()));
    assert_eq!(limiter(24).validate_memory(&request(0, Some(0))), Ok(()));
    assert_eq!(limiter(0).validate_memory(&request(0, Some(0))), Ok(()));
}

#[test]
fn submission_adjusts_then_validates() {
    let tunables = limiter(24);
    assert_eq!(tunables.admit_memory(&request(3, None)), Ok(request(3, Some(24))));
    assert_eq!(tunables.admit_memory(&request(3, Some(12))), Ok(request(3, Some(12))));
    assert_eq!(tunables.admit_memory(&request(24, None)), Ok(request(24, Some(24))));
    assert_eq!(
        tunables.admit_memory(&request(25, None)),
        Err(MemoryLimitError::LimitExceeded(ExceededBound::Minimum))
    );
    assert_eq!(
        tunables.admit_memory(&request(3, Some(25))),
        Err(MemoryLimitError::LimitExceeded(ExceededBound::Maximum))
    );
    assert_eq!(
        tunables.admit_memory(&request(30, Some(40))),
        Err(MemoryLimitError::LimitExceeded(ExceededBound::Minimum))
    );
}

#[test]
fn submission_never_reports_an_unset_maximum() {
    for limit in [0u32, 1, 24, 65536, 65537, u32::MAX] {
        for minimum in [0u32, 1, 24, 25, 65537, u32::MAX] {
            for maximum in [None, Some(0u32), Some(24), Some(25), Some(u32::MAX)] {
                let verdict = limiter(limit).admit_memory(&request(minimum, maximum));
                assert_ne!(verdict, Err(MemoryLimitError::MaximumUnset));
                let within = minimum <= limit && maximum.map_or(true, |max| max <= limit);
                assert_eq!(verdict.is_ok(), within);
                if let Ok(admitted) = verdict {
                    assert_eq!(admitted.maximum, Some(maximum.unwrap_or(limit)));
                    assert_eq!(admitted.minimum, minimum);
                }
            }
        }
    }
}

#[test]
fn error_messages() {
    assert_eq!(
        MemoryLimitError::LimitExceeded(ExceededBound::Minimum).message(),
        "Minimum exceeds the allowed memory limit"
    );
    assert_eq!(
        MemoryLimitError::LimitExceeded(ExceededBound::Maximum).message(),
        "Maximum exceeds the allowed memory limit"
    );
    assert_eq!(MemoryLimitError::MaximumUnset.message(), "Maximum unset");
}

#[test]
fn style_is_dynamic_whatever_the_request_declares() {
    let base = BaseBounds {
        static_memory_bound: 2048,
        static_memory_offset_guard_size: 128,
        dynamic_memory_offset_guard_size: 256,
    };
    let growable = MemoryStyle::Dynamic { offset_guard_size: 256 };
    for limit in [0u32, 24, 2047, 2048, 2049, 65537, u32::MAX] {
        let tunables = LimitingTunables::new(base, limit);
        for minimum in [0u32, 3, 2048, 2049, u32::MAX] {
            for maximum in [None, Some(0u32), Some(16), Some(2048), Some(2049), Some(5_000_000)] {
                assert_eq!(tunables.memory_style(&request(minimum, maximum)), growable);
                let shared = MemoryRequest { minimum, maximum, shared: true };
                assert_eq!(tunables.memory_style(&shared), growable);
            }
        }
    }
}

#[test]
fn declared_maximum_within_the_static_bound_is_dynamic_all_the_same() {
    let tunables = LimitingTunables::new(host_base(), 65537);
    assert_eq!(
        tunables.memory_style(&request(1, Some(16))),
        MemoryStyle::Dynamic { offset_guard_size: 0x1_0000 }
    );
    let low = LimitingTunables::new(host_base(), 24);
    assert_eq!(
        low.memory_style(&request(3, None)),
        MemoryStyle::Dynamic { offset_guard_size: 0x1_0000 }
    );
}

#[test]
fn compile_limit_forces_the_dynamic_style() {
    let tunables = LimitingTunables::for_compilation(host_base());
    let growable = MemoryStyle::Dynamic { offset_guard_size: 0x1_0000 };
    for minimum in [0u32, 1, 17, 65536, 65537, u32::MAX] {
        assert_eq!(tunables.memory_style(&request(minimum, None)), growable);
        assert_eq!(tunables.memory_style(&request(minimum, Some(16))), growable);
        assert_eq!(tunables.memory_style(&request(minimum, Some(65536))), growable);
        assert_eq!(tunables.memory_style(&request(minimum, Some(65537))), growable);
    }
    let narrow = BaseBounds {
        static_memory_bound: 0x4000,
        static_memory_offset_guard_size: 0x1_0000,
        dynamic_memory_offset_guard_size: 0x2_0000,
    };
    assert_eq!(
        LimitingTunables::for_compilation(narrow).memory_style(&request(1, None)),
        MemoryStyle::Dynamic { offset_guard_size: 0x2_0000 }
    );
    assert_eq!(
        LimitingTunables::for_compilation(narrow).memory_style(&request(1, Some(1))),
        MemoryStyle::Dynamic { offset_guard_size: 0x2_0000 }
    );
}
