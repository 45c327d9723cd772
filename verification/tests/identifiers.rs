use azookey::globals::{
    CLSID_PREFIX, GUID_DISPLAY_ATTRIBUTE_CONVERTED, GUID_DISPLAY_ATTRIBUTE_FOCUSED,
    GUID_DISPLAY_ATTRIBUTE_INPUT, GUID_LBI_INPUTMODE, GUID_PROFILE, GUID_TEXT_SERVICE,
    IID_CLASS_FACTORY, IID_LANG_BAR_ITEM_SINK, IID_TEXT_INPUT_PROCESSOR, IID_UNKNOWN,
    INPROC_SUFFIX, SERVICE_NAME, TEXTSERVICE_LANGBARITEMSINK_COOKIE,
};
use azookey::guid::{GUIDExt, Guid};
use windows_core::{Interface, GUID};

fn spelled(guid: &GUID) -> String {
    format!(
        "{{{:08x}-{:04x}-{:04x}-{:02x}{:02x}-{:02x}{:02x}{:02x}{:02x}{:02x}{:02x}}}",
        guid.data1,
        guid.data2,
        guid.data3,
        guid.data4[0],
        guid.data4[1],
        guid.data4[2],
        guid.data4[3],
        guid.data4[4],
        guid.data4[5],
        guid.data4[6],
        guid.data4[7],
    )
}

#[test]
fn text_service_identifier_is_spelled_in_braces() {
    assert_eq!(
        Guid(GUID_TEXT_SERVICE).to_string(),
        "{ffdefe79-2fc2-11ef-b16b-94e70b2c378c}"
    );
    assert_eq!(Guid(GUID_PROFILE).to_string(), "{ffdefe7a-2fc2-11ef-b16b-94e70b2c378c}");
}

#[test]
fn identifier_text_pads_with_zeros() {
    assert_eq!(Guid(0).to_string(), "{00000000-0000-0000-0000-000000000000}");
    assert_eq!(Guid(1).to_string(), "{00000000-0000-0000-0000-000000000001}");
    assert_eq!(Guid(u128::MAX).to_string(), "{ffffffff-ffff-ffff-ffff-ffffffffffff}");
    assert_eq!(
        Guid(0x0123456789abcdef_0fedcba987654321).to_string(),
        "{01234567-89ab-cdef-0fed-cba987654321}"
    );
}

#[test]
fn identifier_text_agrees_with_the_host_type() {
    let numbers = [
        GUID_TEXT_SERVICE,
        GUID_PROFILE,
        GUID_DISPLAY_ATTRIBUTE_INPUT,
        GUID_DISPLAY_ATTRIBUTE_CONVERTED,
        GUID_DISPLAY_ATTRIBUTE_FOCUSED,
        IID_UNKNOWN,
        0x00010203_0405_0607_0809_0a0b0c0d0e0f,
        u128::MAX,
    ];
    for number in numbers {
        assert_eq!(Guid(number).to_string(), spelled(&GUID::from_u128(number)));
        assert_eq!(GUID::from_u128(number).to_u128(), Guid::from_u128(number).to_u128());
    }
}

#[test]
fn interface_identifiers_have_the_hosts_numbers() {
    assert_eq!(IID_UNKNOWN, windows_core::IUnknown::IID.to_u128());
    assert_eq!(Guid(IID_UNKNOWN).to_string(), "{00000000-0000-0000-c000-000000000046}");
    assert_eq!(Guid(IID_CLASS_FACTORY).to_string(), "{00000001-0000-0000-c000-000000000046}");
    assert_eq!(
        Guid(IID_TEXT_INPUT_PROCESSOR).to_string(),
        "{aa80e7f7-2021-11d2-93e0-0060b067b86e}"
    );
    assert_eq!(
        Guid(IID_LANG_BAR_ITEM_SINK).to_string(),
        "{57dbe1a0-de25-11d2-afdd-00105a2799b5}"
    );
    assert_eq!(Guid(GUID_LBI_INPUTMODE).to_string(), "{2c77a81e-41cc-4178-a3a7-5f8a987568e6}");
}

#[test]
fn names_are_as_registered() {
    assert_eq!(CLSID_PREFIX, "CLSID\\");
    assert_eq!(INPROC_SUFFIX, "\\InProcServer32");
    assert_eq!(SERVICE_NAME, "Azookey");
    assert_eq!(TEXTSERVICE_LANGBARITEMSINK_COOKIE, 0x0fab0fab);
}
