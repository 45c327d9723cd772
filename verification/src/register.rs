//! What installing the input method writes: its language profile, its class
//! in the registry, and the categories it belongs to. The lists are made
//! here; writing them is left to the caller.

use vstd::prelude::*;
use vstd::string::*;

use crate::globals::{CLSID_PREFIX, GUID_PROFILE, GUID_TEXT_SERVICE, INPROC_SUFFIX, SERVICE_NAME};
use crate::guid::{guid_text, GUIDExt, Guid};
use crate::ipc::texts;
use crate::wide::{le_bytes, to_wide, to_wide_16, utf16_units};

verus! {

/// The registry key of the text service's class.
pub open spec fn clsid_key() -> Seq<char> {
    CLSID_PREFIX@ + guid_text(GUID_TEXT_SERVICE)
}

/// The registry key that names the in-process server of the class.
pub open spec fn inproc_key() -> Seq<char> {
    clsid_key() + INPROC_SUFFIX@
}

/// A string value as the registry stores it: UTF-16 with the low byte first,
/// ended by one zero byte.
pub open spec fn registry_string(value: Seq<char>) -> Seq<u8> {
    le_bytes(utf16_units(value)).push(0u8)
}

/// One step in writing to the registry, under the classes root.
#[derive(Debug, PartialEq, Eq)]
pub enum RegistryStep {
    /// Create the key, or open it where it is there, for the steps that
    /// follow.
    Create(String),
    /// Set a string value of the open key; an empty name is the key's default
    /// value.
    Write { name: String, data: Vec<u8> },
    /// Close the open key.
    Close,
}

/// A step, over the values it carries.
pub enum RegistryStepView {
    Create(Seq<char>),
    Write { name: Seq<char>, data: Seq<u8> },
    Close,
}

impl View for RegistryStep {
    type V = RegistryStepView;

    open spec fn view(&self) -> RegistryStepView {
        match *self {
            RegistryStep::Create(key) => RegistryStepView::Create(key@),
            RegistryStep::Write { name, data } => RegistryStepView::Write { name: name@, data: data@ },
            RegistryStep::Close => RegistryStepView::Close,
        }
    }
}

/// What a sequence of steps says, one by one.
pub open spec fn registry_views(steps: Seq<RegistryStep>) -> Seq<RegistryStepView> {
    Seq::new(steps.len(), |i: int| steps[i]@)
}

/// The steps that register the class with `dll_path` as its server: under
/// the class's key its name, and under the server's key the server's path and
/// its threading model.
pub open spec fn class_steps(dll_path: Seq<char>) -> Seq<RegistryStepView> {
    seq![
        RegistryStepView::Create(clsid_key()),
        RegistryStepView::Write { name: ""@, data: registry_string(SERVICE_NAME@) },
        RegistryStepView::Close,
        RegistryStepView::Create(inproc_key()),
        RegistryStepView::Write { name: ""@, data: registry_string(dll_path) },
        RegistryStepView::Write { name: "ThreadingModel"@, data: registry_string("Apartment"@) },
        RegistryStepView::Close,
    ]
}

/// The language profile of the text service, as it is registered.
#[derive(Debug, PartialEq, Eq)]
pub struct ProfileRegistration {
    pub service: Guid,
    pub langid: u16,
    pub profile: Guid,
    /// The profile's description: UTF-16, ended by a zero unit.
    pub description: Vec<u16>,
    /// The file that holds the profile's icon: UTF-16, ended by a zero unit.
    pub icon_file: Vec<u16>,
    pub icon_index: u32,
    pub enabled_by_default: bool,
    pub flags: u32,
}

/// Registers the language profile.
#[derive(Clone, Copy, Debug, PartialEq, Eq, Structural)]
pub struct ProfileMgr;

impl ProfileMgr {
    /// The profile to register for the module at `dll_path`, for the language
    /// whose locale the host numbers `lcid`.
    pub fn register(dll_path: &str, lcid: u32) -> (profile: ProfileRegistration)
        requires
            lcid <= u16::MAX,
        ensures
            profile.service == Guid(GUID_TEXT_SERVICE),
            profile.langid == lcid,
            profile.profile == Guid(GUID_PROFILE),
            profile.description@ == utf16_units(SERVICE_NAME@).push(0u16),
            profile.icon_file@ == utf16_units(dll_path@).push(0u16),
            profile.icon_index == 0,
            profile.enabled_by_default,
            profile.flags == 0,
    {
        ProfileRegistration {
            service: Guid(GUID_TEXT_SERVICE),
            langid: lcid as u16,
            profile: Guid(GUID_PROFILE),
            description: to_wide_16(SERVICE_NAME),
            icon_file: to_wide_16(dll_path),
            icon_index: 0,
            enabled_by_default: true,
            flags: 0,
        }
    }

    /// The profile to unregister: the service, the language and the profile.
    pub fn unregister(lcid: u32) -> (profile: (Guid, u16, Guid))
        requires
            lcid <= u16::MAX,
        ensures
            profile == (Guid(GUID_TEXT_SERVICE), lcid as u16, Guid(GUID_PROFILE)),
    {
        (Guid(GUID_TEXT_SERVICE), lcid as u16, Guid(GUID_PROFILE))
    }
}

/// Registers the class of the text service.
#[derive(Clone, Copy, Debug, PartialEq, Eq, Structural)]
pub struct ClsidMgr;

impl ClsidMgr {
    fn clsid_key() -> (key: String)
        ensures
            key@ == clsid_key(),
    {
        let mut key = String::from_str(CLSID_PREFIX);
        let id = Guid(GUID_TEXT_SERVICE).to_string();
        key.append(id.as_str());
        key
    }

    fn inproc_key() -> (key: String)
        ensures
            key@ == inproc_key(),
    {
        let mut key = ClsidMgr::clsid_key();
        key.append(INPROC_SUFFIX);
        key
    }

    /// The steps to take, in order, to register the class with the module at
    /// `dll_path` as its server. A step that fails ends the registration,
    /// but for a failure to close a key, which is passed over.
    pub fn register(dll_path: &str) -> (steps: Vec<RegistryStep>)
        ensures
            registry_views(steps@) == class_steps(dll_path@),
    {
        let mut steps: Vec<RegistryStep> = Vec::new();
        steps.push(RegistryStep::Create(ClsidMgr::clsid_key()));
        steps.push(RegistryStep::Write { name: String::from_str(""), data: to_wide(SERVICE_NAME) });
        steps.push(RegistryStep::Close);
        steps.push(RegistryStep::Create(ClsidMgr::inproc_key()));
        steps.push(RegistryStep::Write { name: String::from_str(""), data: to_wide(dll_path) });
        steps.push(
            RegistryStep::Write {
                name: String::from_str("ThreadingModel"),
                data: to_wide("Apartment"),
            },
        );
        steps.push(RegistryStep::Close);
        assert(registry_views(steps@) =~= class_steps(dll_path@));
        steps
    }

    /// The keys whose trees are deleted, in order, to unregister the class.
    pub fn unregister() -> (keys: Vec<String>)
        ensures
            texts(keys@) == seq![clsid_key(), inproc_key()],
    {
        let mut keys: Vec<String> = Vec::new();
        keys.push(ClsidMgr::clsid_key());
        keys.push(ClsidMgr::inproc_key());
        assert(texts(keys@) =~= seq![clsid_key(), inproc_key()]);
        keys
    }
}

/// The host shows the display attributes of text services in this category.
pub const GUID_TFCAT_DISPLAYATTRIBUTEPROVIDER: u128 = 0x046b8c80_1647_40f7_9b21_b93b81aabc1b;

/// Text services in this category can be used without the object model
/// being initialised.
pub const GUID_TFCAT_TIPCAP_COMLESS: u128 = 0x364215d9_75bc_11d7_a6ef_00065b84435c;

/// Text services in this category keep their input mode in a compartment.
pub const GUID_TFCAT_TIPCAP_INPUTMODECOMPARTMENT: u128 = 0xccf05dd7_4a87_11d7_a6e2_00065b84435c;

/// Text services in this category draw their own candidate window.
pub const GUID_TFCAT_TIPCAP_UIELEMENTENABLED: u128 = 0x49d2f9cf_1f5e_11d7_a6d3_00065b84435c;

/// Text services in this category take keyboard input.
pub const GUID_TFCAT_TIP_KEYBOARD: u128 = 0x34745c63_b2f0_4784_8b67_5e12c8701a31;

/// Text services in this category work in immersive applications.
pub const GUID_TFCAT_TIPCAP_IMMERSIVESUPPORT: u128 = 0x13a016df_560b_46cd_947a_4c3af1e0e35d;

/// Text services in this category show themselves in the system tray.
pub const GUID_TFCAT_TIPCAP_SYSTRAYSUPPORT: u128 = 0x25504fb4_7bab_4bc1_9c69_cf81890f0ef5;

/// The categories that the text service belongs to, in the order in which
/// they are registered.
pub open spec fn categories() -> Seq<Guid> {
    seq![
        Guid(GUID_TFCAT_DISPLAYATTRIBUTEPROVIDER),
        Guid(GUID_TFCAT_TIPCAP_COMLESS),
        Guid(GUID_TFCAT_TIPCAP_INPUTMODECOMPARTMENT),
        Guid(GUID_TFCAT_TIPCAP_UIELEMENTENABLED),
        Guid(GUID_TFCAT_TIP_KEYBOARD),
        Guid(GUID_TFCAT_TIPCAP_IMMERSIVESUPPORT),
        Guid(GUID_TFCAT_TIPCAP_SYSTRAYSUPPORT),
    ]
}

/// One membership in a category: the service that registers it, the
/// category, and the item that belongs to it.
#[derive(Clone, Copy, Debug, PartialEq, Eq, Structural)]
pub struct CategoryEntry {
    pub service: Guid,
    pub category: Guid,
    pub item: Guid,
}

/// The memberships of the text service: one for each of its categories, in
/// order, each of the service itself.
pub open spec fn category_entries() -> Seq<CategoryEntry> {
    Seq::new(
        categories().len(),
        |i: int|
            CategoryEntry {
                service: Guid(GUID_TEXT_SERVICE),
                category: categories()[i],
                item: Guid(GUID_TEXT_SERVICE),
            },
    )
}

/// Registers the categories of the text service.
#[derive(Clone, Copy, Debug, PartialEq, Eq, Structural)]
pub struct CategiryMgr;

impl CategiryMgr {
    /// The categories that the text service belongs to.
    pub fn categories() -> (list: Vec<Guid>)
        ensures
            list@ == categories(),
    {
        let mut list: Vec<Guid> = Vec::new();
        list.push(Guid(GUID_TFCAT_DISPLAYATTRIBUTEPROVIDER));
        list.push(Guid(GUID_TFCAT_TIPCAP_COMLESS));
        list.push(Guid(GUID_TFCAT_TIPCAP_INPUTMODECOMPARTMENT));
        list.push(Guid(GUID_TFCAT_TIPCAP_UIELEMENTENABLED));
        list.push(Guid(GUID_TFCAT_TIP_KEYBOARD));
        list.push(Guid(GUID_TFCAT_TIPCAP_IMMERSIVESUPPORT));
        list.push(Guid(GUID_TFCAT_TIPCAP_SYSTRAYSUPPORT));
        assert(list@ =~= categories());
        list
    }

    fn entries() -> (entries: Vec<CategoryEntry>)
        ensures
            entries@ == category_entries(),
    {
        let list = CategiryMgr::categories();
        let mut entries: Vec<CategoryEntry> = Vec::new();
        let mut i: usize = 0;
        while i < list.len()
            invariant
                i <= list@.len(),
                list@ == categories(),
                entries@ == category_entries().take(i as int),
            decreases list@.len() - i,
        {
            entries.push(
                CategoryEntry {
                    service: Guid(GUID_TEXT_SERVICE),
                    category: list[i],
                    item: Guid(GUID_TEXT_SERVICE),
                },
            );
            assert(entries@ =~= category_entries().take(i + 1));
            i += 1;
        }
        assert(category_entries().take(i as int) =~= category_entries());
        entries
    }

    /// The memberships to register, in order.
    pub fn register() -> (entries: Vec<CategoryEntry>)
        ensures
            entries@ == category_entries(),
    {
        CategiryMgr::entries()
    }

    /// The memberships to unregister, in order.
    pub fn unregister() -> (entries: Vec<CategoryEntry>)
        ensures
            entries@ == category_entries(),
    {
        CategiryMgr::entries()
    }
}

} // verus!
