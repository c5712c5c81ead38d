use unrar::error::Code;

#[test]
fn codes_match_native_constants() {
    let pairs = [
        (unrar_sys::ERAR_SUCCESS, Code::Success),
        (unrar_sys::ERAR_END_ARCHIVE, Code::EndArchive),
        (unrar_sys::ERAR_NO_MEMORY, Code::NoMemory),
        (unrar_sys::ERAR_BAD_DATA, Code::BadData),
        (unrar_sys::ERAR_BAD_ARCHIVE, Code::BadArchive),
        (unrar_sys::ERAR_UNKNOWN_FORMAT, Code::UnknownFormat),
        (unrar_sys::ERAR_EOPEN, Code::EOpen),
        (unrar_sys::ERAR_ECREATE, Code::ECreate),
        (unrar_sys::ERAR_ECLOSE, Code::EClose),
        (unrar_sys::ERAR_EREAD, Code::ERead),
        (unrar_sys::ERAR_EWRITE, Code::EWrite),
        (unrar_sys::ERAR_SMALL_BUF, Code::SmallBuf),
        (unrar_sys::ERAR_UNKNOWN, Code::Unknown),
        (unrar_sys::ERAR_MISSING_PASSWORD, Code::MissingPassword),
        (unrar_sys::ERAR_EREFERENCE, Code::EReference),
        (unrar_sys::ERAR_BAD_PASSWORD, Code::BadPassword),
    ];
    for (raw, code) in pairs {
        assert_eq!(code.to_i32(), raw);
        assert_eq!(Code::from(raw), Some(code));
    }
}

#[test]
fn nul_code_is_outside_native_range() {
    let native = [
        unrar_sys::ERAR_SUCCESS,
        unrar_sys::ERAR_END_ARCHIVE,
        unrar_sys::ERAR_BAD_PASSWORD,
    ];
    for raw in native {
        assert!(Code::ENul.to_i32() > raw);
    }
}
