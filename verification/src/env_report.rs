//! A report on the machine the assistant runs on: signs of a virtual
//! machine, read from what the system reports, and a score derived from
//! them.
use vstd::prelude::*;
use vstd::string::StringExecFns;
use crate::text::{
    chars_of, contains, contains_chars, occurs_at_exec, found_messages, lowercase, push_found, starts_with,
    string_views, text_views, to_lowercase,
};

verus! {

/// What the report says of the machine.
pub struct EnvironmentReport {
    pub hw_model: String,
    pub is_vm: bool,
    pub vm_indicators: Vec<String>,
    pub stealth_score: u8,
}

/// Hardware-model names of virtual machines.
pub open spec fn vm_models() -> Seq<&'static str> {
    seq!["vmware", "virtualbox", "parallels", "qemu", "xen"]
}

/// Kernel extensions that virtual machines install.
pub open spec fn vm_kexts() -> Seq<&'static str> {
    seq![
        "/Library/Extensions/VMwareGfx.kext",
        "/Library/Extensions/VBoxGuest.kext",
        "/Library/Extensions/prl_hypervisor.kext",
    ]
}

/// Guest-tool processes of virtual machines.
pub open spec fn vm_processes() -> Seq<&'static str> {
    seq!["vmware-tools", "vboxservice", "prl_tools", "qemu-ga"]
}

/// Network-card prefixes (OUIs) of virtual machines, with their vendors.
pub open spec fn vm_ouis() -> Seq<(&'static str, &'static str)> {
    seq![
        ("00:0c:29", "VMware"),
        ("00:50:56", "VMware"),
        ("08:00:27", "VirtualBox"),
        ("00:1c:42", "Parallels"),
    ]
}

pub fn vm_kext_paths() -> (r: Vec<&'static str>)
    ensures
        r@ == vm_kexts(),
{
    let r = vec![
        "/Library/Extensions/VMwareGfx.kext",
        "/Library/Extensions/VBoxGuest.kext",
        "/Library/Extensions/prl_hypervisor.kext",
    ];
    assert(r@ =~= vm_kexts());
    r
}

/// The kernel extensions among `vm_kexts()` that are present, as messages.
pub open spec fn kext_messages(paths: Seq<&str>, present: Seq<bool>) -> Seq<Seq<char>>
    decreases paths.len(),
{
    if paths.len() == 0 {
        seq![]
    } else {
        let rest = kext_messages(paths.drop_last(), present);
        let i = paths.len() - 1;
        if i < present.len() && present[i] {
            rest.push("VM kext found: "@ + paths.last()@)
        } else {
            rest
        }
    }
}

/// The vendors whose network prefixes occur in the interface listing.
pub open spec fn oui_messages(text: Seq<char>, ouis: Seq<(&str, &str)>) -> Seq<Seq<char>>
    decreases ouis.len(),
{
    if ouis.len() == 0 {
        seq![]
    } else {
        let rest = oui_messages(text, ouis.drop_last());
        let (oui, vendor) = ouis.last();
        if contains(text, oui@) {
            rest.push(vendor@ + " MAC OUI detected: "@ + oui@)
        } else {
            rest
        }
    }
}

/// The signs of a virtual machine, in order: names in the hardware model,
/// kernel extensions present, guest-tool processes running, network
/// prefixes; the model, process list and interface listing are compared in
/// lowercase, and a listing that could not be obtained gives no sign.
pub open spec fn vm_signs(
    hw_model: Seq<char>,
    kexts_present: Seq<bool>,
    ps_output: Option<Seq<char>>,
    ifconfig_output: Option<Seq<char>>,
) -> Seq<Seq<char>> {
    found_messages(lowercase(hw_model), text_views(vm_models()), "hw.model contains '"@, "'"@)
        + kext_messages(vm_kexts(), kexts_present) + match ps_output {
        Some(ps) => found_messages(
            lowercase(ps),
            text_views(vm_processes()),
            "VM process running: "@,
            ""@,
        ),
        None => seq![],
    } + match ifconfig_output {
        Some(ifc) => oui_messages(lowercase(ifc), vm_ouis()),
        None => seq![],
    }
}

pub open spec fn opt_text(o: Option<String>) -> Option<Seq<char>> {
    match o {
        Some(s) => Some(s@),
        None => None,
    }
}

pub fn detect_vm_indicators(
    hw_model: &str,
    kexts_present: &Vec<bool>,
    ps_output: Option<String>,
    ifconfig_output: Option<String>,
) -> (r: Vec<String>)
    ensures
        string_views(r@) == vm_signs(
            hw_model@,
            kexts_present@,
            opt_text(ps_output),
            opt_text(ifconfig_output),
        ),
{
    let mut out: Vec<String> = Vec::new();
    let model = chars_of(to_lowercase(hw_model).as_str());
    let models = vec!["vmware", "virtualbox", "parallels", "qemu", "xen"];
    assert(models@ =~= vm_models());
    assert(string_views(out@) =~= seq![]);
    push_found(&mut out, &model, &models, "hw.model contains '", "'");
    let ghost after_models = string_views(out@);
    let kexts = vm_kext_paths();
    let mut i: usize = 0;
    while i < kexts.len()
        invariant
            i <= kexts@.len(),
            kexts@ == vm_kexts(),
            string_views(out@) == after_models + kext_messages(
                kexts@.take(i as int),
                kexts_present@,
            ),
        decreases kexts.len() - i,
    {
        let ghost prev = string_views(out@);
        assert(kexts@.take(i + 1).drop_last() =~= kexts@.take(i as int));
        assert(kexts@.take(i + 1).last() == kexts@[i as int]);
        if i < kexts_present.len() && kexts_present[i] {
            let mut m = "VM kext found: ".to_owned();
            m.append(kexts[i]);
            let ghost mv = m@;
            out.push(m);
            assert(string_views(out@) =~= prev.push(mv));
        }
        i += 1;
    }
    assert(kexts@.take(kexts@.len() as int) =~= kexts@);
    let ghost after_kexts = string_views(out@);
    if let Some(ps) = &ps_output {
        let text = chars_of(to_lowercase(ps.as_str()).as_str());
        let procs = vec!["vmware-tools", "vboxservice", "prl_tools", "qemu-ga"];
        assert(procs@ =~= vm_processes());
        push_found(&mut out, &text, &procs, "VM process running: ", "");
    } else {
        assert(string_views(out@) =~= after_kexts + seq![]);
    }
    let ghost after_procs = string_views(out@);
    if let Some(ifc) = &ifconfig_output {
        let text = chars_of(to_lowercase(ifc.as_str()).as_str());
        let ouis = vec![
            ("00:0c:29", "VMware"),
            ("00:50:56", "VMware"),
            ("08:00:27", "VirtualBox"),
            ("00:1c:42", "Parallels"),
        ];
        assert(ouis@ =~= vm_ouis());
        let mut k: usize = 0;
        while k < ouis.len()
            invariant
                k <= ouis@.len(),
                ouis@ == vm_ouis(),
                text@ == lowercase(ifc@),
                string_views(out@) == after_procs + oui_messages(text@, ouis@.take(k as int)),
            decreases ouis.len() - k,
        {
            let ghost prev = string_views(out@);
            assert(ouis@.take(k + 1).drop_last() =~= ouis@.take(k as int));
            assert(ouis@.take(k + 1).last() == ouis@[k as int]);
            let (oui, vendor) = ouis[k];
            let oc = chars_of(oui);
            if contains_chars(&text, &oc) {
                let mut m = vendor.to_owned();
                m.append(" MAC OUI detected: ");
                m.append(oui);
                let ghost mv = m@;
                out.push(m);
                assert(string_views(out@) =~= prev.push(mv));
            }
            k += 1;
        }
        assert(ouis@.take(ouis@.len() as int) =~= ouis@);
    } else {
        assert(string_views(out@) =~= after_procs + seq![]);
    }
    out
}

pub open spec fn sat_sub(a: int, b: int) -> int {
    if a > b {
        a - b
    } else {
        0
    }
}

/// The score: 100, less 30 and 5 per sign when there are signs of a virtual
/// machine, less 10 when the hardware model does not start with "Mac";
/// never below 0. The sign count is taken modulo 256.
pub open spec fn stealth_score_of(hw_model: Seq<char>, signs: nat) -> int {
    let vm_penalty: int = if signs > 0 {
        (30 + 5 * (signs % 256)) as int
    } else {
        0
    };
    let model_penalty: int = if starts_with(hw_model, "Mac"@) {
        0
    } else {
        10
    };
    let score: int = 100 - vm_penalty - model_penalty;
    if score > 0 {
        score
    } else {
        0
    }
}

pub fn calculate_stealth_score(hw_model: &str, vm_indicators: &[String]) -> (r: u8)
    ensures
        r == stealth_score_of(hw_model@, vm_indicators@.len()),
{
    let mut score: u8 = 100;
    if vm_indicators.len() > 0 {
        score = score - 30;
        let count = (vm_indicators.len() % 256) as u8;
        let per_sign: u8 = if count > 51 {
            255
        } else {
            count * 5
        };
        score = if score > per_sign {
            score - per_sign
        } else {
            0
        };
    }
    let model = chars_of(hw_model);
    let mac = chars_of("Mac");
    let is_mac = occurs_at_exec(&model, &mac, 0);
    if !is_mac {
        score = if score > 10 {
            score - 10
        } else {
            0
        };
    }
    score
}

/// The report on a machine whose hardware model and signs of a virtual
/// machine have been gathered.
pub fn generate_report(hw_model: String, vm_indicators: Vec<String>) -> (r: EnvironmentReport)
    ensures
        r.hw_model@ == hw_model@,
        string_views(r.vm_indicators@) == string_views(vm_indicators@),
        r.is_vm == (vm_indicators@.len() > 0),
        r.stealth_score == stealth_score_of(hw_model@, vm_indicators@.len()),
{
    let is_vm = vm_indicators.len() > 0;
    let stealth_score = calculate_stealth_score(hw_model.as_str(), vm_indicators.as_slice());
    EnvironmentReport { hw_model, is_vm, vm_indicators, stealth_score }
}

/// The score stays within 0 to 100; a machine with no sign of a virtual
/// machine and an Apple model scores 100, and any sign costs at least 30.
pub proof fn lemma_score_bounds(hw_model: Seq<char>, signs: nat)
    ensures
        0 <= stealth_score_of(hw_model, signs) <= 100,
        signs == 0 && starts_with(hw_model, "Mac"@) ==> stealth_score_of(hw_model, signs) == 100,
        signs > 0 ==> stealth_score_of(hw_model, signs) <= 70,
{
}

} // verus!
