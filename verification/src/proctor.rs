//! Recognition of exam-monitoring software from what the system reports:
//! running applications, process listings and launch-agent file names.
use vstd::prelude::*;
use crate::text::{
    chars_of, contains, contains_chars, found_messages, lowercase, push_found, string_views,
    text_views, to_lowercase,
};

verus! {

/// A running application recognised as monitoring software.
#[derive(Debug)]
pub struct DetectedProctor {
    pub name: String,
    pub bundle_id: String,
    pub process_name: String,
}

pub struct ProctorView {
    pub name: Seq<char>,
    pub bundle_id: Seq<char>,
    pub process_name: Seq<char>,
}

impl View for DetectedProctor {
    type V = ProctorView;

    open spec fn view(&self) -> ProctorView {
        ProctorView { name: self.name@, bundle_id: self.bundle_id@, process_name: self.process_name@ }
    }
}

impl DetectedProctor {
    /// A field-by-field copy.
    pub fn copy_of(&self) -> (r: DetectedProctor)
        ensures
            r@ == self@,
    {
        DetectedProctor {
            name: self.name.clone(),
            bundle_id: self.bundle_id.clone(),
            process_name: self.process_name.clone(),
        }
    }
}

pub open spec fn proctor_views(v: Seq<DetectedProctor>) -> Seq<ProctorView> {
    v.map_values(|p: DetectedProctor| p@)
}

/// Copies a list of detections.
pub fn copy_proctors(v: &Vec<DetectedProctor>) -> (r: Vec<DetectedProctor>)
    ensures
        proctor_views(r@) == proctor_views(v@),
{
    let mut out: Vec<DetectedProctor> = Vec::new();
    let mut i: usize = 0;
    while i < v.len()
        invariant
            i <= v@.len(),
            out@.len() == i,
            forall|k: int| 0 <= k < i ==> (#[trigger] out@[k])@ == v@[k]@,
        decreases v.len() - i,
    {
        let p = v[i].copy_of();
        out.push(p);
        i += 1;
    }
    assert(proctor_views(out@) =~= proctor_views(v@));
    out
}

/// What a full scan for monitoring software found.
pub struct ProctorScanResult {
    pub running_proctors: Vec<String>,
    pub suspicious_ports: Vec<u16>,
    pub launch_agents: Vec<String>,
}

/// Names that give monitoring software away in a process listing.
pub open spec fn process_keywords() -> Seq<&'static str> {
    seq![
        "proctorfree", "proctoru", "respondus", "lockdown", "examsoft", "examplify", "proctorio",
        "honorlock", "exammonitor", "securebrowser", "safeexam",
    ]
}

/// Names that give monitoring software away in a launch-agent file name.
pub open spec fn agent_keywords() -> Seq<&'static str> {
    seq![
        "proctorfree", "proctoru", "respondus", "examsoft", "proctorio", "honorlock", "lockdown",
        "securebrowser",
    ]
}

/// Local ports that monitoring software listens on.
pub open spec fn monitored_ports() -> Seq<u16> {
    seq![11750u16, 11751, 23456, 23457, 18700, 18701, 21150, 21151]
}

/// The process keywords found in a process listing, compared in lowercase.
pub fn scan_running_processes(ps_output: &str) -> (r: Vec<String>)
    ensures
        string_views(r@) == found_messages(
            lowercase(ps_output@),
            text_views(process_keywords()),
            ""@,
            ""@,
        ),
{
    let text = chars_of(to_lowercase(ps_output).as_str());
    let keywords = vec![
        "proctorfree", "proctoru", "respondus", "lockdown", "examsoft", "examplify", "proctorio",
        "honorlock", "exammonitor", "securebrowser", "safeexam",
    ];
    assert(keywords@ =~= process_keywords());
    let mut out: Vec<String> = Vec::new();
    assert(string_views(out@) =~= seq![]);
    push_found(&mut out, &text, &keywords, "", "");
    assert(string_views(out@) =~= found_messages(text@, text_views(keywords@), ""@, ""@));
    out
}

/// A launch-agent file name that, in lowercase, holds one of the keywords.
pub open spec fn names_proctor_agent(file_name: Seq<char>) -> bool {
    exists|k: int|
        0 <= k < agent_keywords().len() && contains(
            lowercase(file_name),
            #[trigger] agent_keywords()[k]@,
        )
}

pub fn is_proctor_launch_agent(file_name: &str) -> (r: bool)
    ensures
        r == names_proctor_agent(file_name@),
{
    let text = chars_of(to_lowercase(file_name).as_str());
    let keywords = vec![
        "proctorfree", "proctoru", "respondus", "examsoft", "proctorio", "honorlock", "lockdown",
        "securebrowser",
    ];
    assert(keywords@ =~= agent_keywords());
    let mut i: usize = 0;
    while i < keywords.len()
        invariant
            i <= keywords@.len(),
            keywords@ == agent_keywords(),
            text@ == lowercase(file_name@),
            forall|k: int| 0 <= k < i ==> !contains(text@, #[trigger] keywords@[k]@),
        decreases keywords.len() - i,
    {
        let kw = chars_of(keywords[i]);
        if contains_chars(&text, &kw) {
            return true;
        }
        i += 1;
    }
    false
}

pub fn suspect_ports() -> (r: Vec<u16>)
    ensures
        r@ == monitored_ports(),
{
    let r = vec![11750u16, 11751, 23456, 23457, 18700, 18701, 21150, 21151];
    assert(r@ =~= monitored_ports());
    r
}

/// Known monitoring applications: display name and identifying fragments.
pub open spec fn known_proctors() -> Seq<(&'static str, Seq<&'static str>)> {
    seq![
        ("ProctorFree", seq!["com.proctorfree", "proctorfree"]),
        ("ProctorU", seq!["com.proctoru", "proctoru"]),
        ("Respondus LockDown", seq!["com.respondus", "lockdownbrowser"]),
        ("ExamSoft", seq!["com.examsoft", "examplify"]),
        ("Proctorio", seq!["com.proctorio", "proctorio"]),
        ("Honorlock", seq!["com.honorlock", "honorlock"]),
        ("ExamMonitor", seq!["com.exammonitor", "exammonitor"]),
    ]
}

/// One of the fragments occurs in the bundle identifier or the name.
pub open spec fn identified_by(ids: Seq<&str>, bundle: Seq<char>, name: Seq<char>) -> bool {
    exists|j: int| 0 <= j < ids.len() && (contains(bundle, #[trigger] ids[j]@) || contains(name, ids[j]@))
}

/// The first known application, in list order, that the identifiers give
/// away.
pub open spec fn first_match(bundle: Seq<char>, name: Seq<char>, from: int) -> Option<int>
    decreases known_proctors().len() - from,
{
    if from < 0 || from >= known_proctors().len() {
        None
    } else if identified_by(known_proctors()[from].1, bundle, name) {
        Some(from)
    } else {
        first_match(bundle, name, from + 1)
    }
}

fn known_proctor_table() -> (r: Vec<(&'static str, Vec<&'static str>)>)
    ensures
        r@.len() == known_proctors().len(),
        forall|i: int|
            0 <= i < r@.len() ==> (#[trigger] r@[i]).0 == known_proctors()[i].0 && r@[i].1@
                == known_proctors()[i].1,
{
    let r = vec![
        ("ProctorFree", vec!["com.proctorfree", "proctorfree"]),
        ("ProctorU", vec!["com.proctoru", "proctoru"]),
        ("Respondus LockDown", vec!["com.respondus", "lockdownbrowser"]),
        ("ExamSoft", vec!["com.examsoft", "examplify"]),
        ("Proctorio", vec!["com.proctorio", "proctorio"]),
        ("Honorlock", vec!["com.honorlock", "honorlock"]),
        ("ExamMonitor", vec!["com.exammonitor", "exammonitor"]),
    ];
    proof {
        assert(r@[0].1@ =~= known_proctors()[0].1);
        assert(r@[1].1@ =~= known_proctors()[1].1);
        assert(r@[2].1@ =~= known_proctors()[2].1);
        assert(r@[3].1@ =~= known_proctors()[3].1);
        assert(r@[4].1@ =~= known_proctors()[4].1);
        assert(r@[5].1@ =~= known_proctors()[5].1);
        assert(r@[6].1@ =~= known_proctors()[6].1);
    }
    r
}

fn identifies(ids: &Vec<&str>, bundle: &Vec<char>, name: &Vec<char>) -> (r: bool)
    ensures
        r == identified_by(ids@, bundle@, name@),
{
    let mut j: usize = 0;
    while j < ids.len()
        invariant
            j <= ids@.len(),
            forall|m: int|
                0 <= m < j ==> !(contains(bundle@, #[trigger] ids@[m]@) || contains(name@, ids@[m]@)),
        decreases ids.len() - j,
    {
        let id = chars_of(ids[j]);
        if contains_chars(bundle, &id) || contains_chars(name, &id) {
            return true;
        }
        j += 1;
    }
    false
}

/// The detection for a running application, given its bundle identifier
/// and name: both are lowercased, and the first known application that
/// either gives away is reported with them.
pub fn classify_application(bundle_id: &str, name: &str) -> (r: Option<DetectedProctor>)
    ensures
        match first_match(lowercase(bundle_id@), lowercase(name@), 0) {
            Some(k) => r matches Some(p) && p@.name == known_proctors()[k].0@ && p@.bundle_id
                == lowercase(bundle_id@) && p@.process_name == lowercase(name@),
            None => r is None,
        },
{
    let bundle_lower = to_lowercase(bundle_id);
    let name_lower = to_lowercase(name);
    let bc = chars_of(bundle_lower.as_str());
    let nc = chars_of(name_lower.as_str());
    let table = known_proctor_table();
    let mut i: usize = 0;
    while i < table.len()
        invariant
            i <= table@.len(),
            table@.len() == known_proctors().len(),
            forall|k: int|
                0 <= k < table@.len() ==> (#[trigger] table@[k]).0 == known_proctors()[k].0
                    && table@[k].1@ == known_proctors()[k].1,
            bc@ == lowercase(bundle_id@),
            nc@ == lowercase(name@),
            bundle_lower@ == lowercase(bundle_id@),
            name_lower@ == lowercase(name@),
            first_match(bc@, nc@, 0) == first_match(bc@, nc@, i as int),
        decreases table.len() - i,
    {
        let entry = &table[i];
        if identifies(&entry.1, &bc, &nc) {
            assert(first_match(bc@, nc@, i as int) == Some(i as int));
            let proctor_name: String = entry.0.to_owned();
            let d = DetectedProctor {
                name: proctor_name,
                bundle_id: bundle_lower,
                process_name: name_lower,
            };
            return Some(d);
        }
        i += 1;
    }
    None
}

// ---------------------------------------------------------------------------
// Scans
// ---------------------------------------------------------------------------

/// The detection for one running application, given its bundle identifier
/// and name as the system reports them.
pub open spec fn detection_of(bundle: Seq<char>, name: Seq<char>) -> Option<ProctorView> {
    match first_match(lowercase(bundle), lowercase(name), 0) {
        Some(k) => Some(
            ProctorView {
                name: known_proctors()[k].0@,
                bundle_id: lowercase(bundle),
                process_name: lowercase(name),
            },
        ),
        None => None,
    }
}

/// A name the system may not report: missing counts as empty.
pub open spec fn reported_text(o: Option<String>) -> Seq<char> {
    match o {
        Some(s) => s@,
        None => seq![],
    }
}

/// The detections among running applications, in order; an application
/// without a bundle identifier is passed over.
pub open spec fn detections(apps: Seq<(Option<String>, Option<String>)>) -> Seq<ProctorView>
    decreases apps.len(),
{
    if apps.len() == 0 {
        seq![]
    } else {
        let rest = detections(apps.drop_last());
        let app = apps.last();
        match app.0 {
            None => rest,
            Some(bundle) => match detection_of(bundle@, reported_text(app.1)) {
                Some(p) => rest.push(p),
                None => rest,
            },
        }
    }
}

/// The monitoring applications among the running ones, each given by its
/// bundle identifier and name where the system reports them.
pub fn scan_proctoring_software(apps: &Vec<(Option<String>, Option<String>)>) -> (r: Vec<
    DetectedProctor,
>)
    ensures
        proctor_views(r@) == detections(apps@),
{
    let mut out: Vec<DetectedProctor> = Vec::new();
    let mut i: usize = 0;
    while i < apps.len()
        invariant
            i <= apps@.len(),
            proctor_views(out@) == detections(apps@.take(i as int)),
        decreases apps.len() - i,
    {
        let ghost before = proctor_views(out@);
        assert(apps@.take(i + 1).drop_last() =~= apps@.take(i as int));
        assert(apps@.take(i + 1).last() == apps@[i as int]);
        let entry = &apps[i];
        if let Some(bundle) = &entry.0 {
            let name: &str = match &entry.1 {
                Some(n) => n.as_str(),
                None => "",
            };
            proof {
                reveal_strlit("");
                assert(name@ == reported_text(entry.1));
            }
            if let Some(p) = classify_application(bundle.as_str(), name) {
                out.push(p);
                assert(proctor_views(out@) =~= before.push(out@.last()@));
            }
        }
        i += 1;
    }
    assert(apps@.take(apps@.len() as int) =~= apps@);
    out
}

/// The monitored ports, among the first `n`, that were found open; a port
/// without a finding counts as closed.
pub open spec fn open_ports(n: int, open: Seq<bool>) -> Seq<u16>
    decreases n,
{
    if n <= 0 {
        seq![]
    } else {
        let rest = open_ports(n - 1, open);
        if n - 1 < open.len() && open[n - 1] {
            rest.push(monitored_ports()[n - 1])
        } else {
            rest
        }
    }
}

/// The paths of the launch agents, in order, whose file names give
/// monitoring software away.
pub open spec fn agent_paths(files: Seq<(String, String)>) -> Seq<Seq<char>>
    decreases files.len(),
{
    if files.len() == 0 {
        seq![]
    } else {
        let rest = agent_paths(files.drop_last());
        if names_proctor_agent(files.last().1@) {
            rest.push(files.last().0@)
        } else {
            rest
        }
    }
}

/// A full scan from what the system reported: the process listing (none
/// when it could not be read), whether each monitored port answered, in
/// the order of `suspect_ports`, and the launch agents as path and file
/// name.
pub fn full_scan(
    ps_output: Option<String>,
    port_open: &Vec<bool>,
    agent_files: &Vec<(String, String)>,
) -> (r: ProctorScanResult)
    ensures
        string_views(r.running_proctors@) == match ps_output {
            Some(o) => found_messages(lowercase(o@), text_views(process_keywords()), ""@, ""@),
            None => seq![],
        },
        r.suspicious_ports@ == open_ports(monitored_ports().len() as int, port_open@),
        string_views(r.launch_agents@) == agent_paths(agent_files@),
{
    let running_proctors = match &ps_output {
        Some(o) => scan_running_processes(o.as_str()),
        None => {
            let v: Vec<String> = Vec::new();
            assert(string_views(v@) =~= seq![]);
            v
        },
    };

    let ports = suspect_ports();
    let mut suspicious_ports: Vec<u16> = Vec::new();
    let mut i: usize = 0;
    while i < ports.len()
        invariant
            i <= ports@.len(),
            ports@ == monitored_ports(),
            suspicious_ports@ == open_ports(i as int, port_open@),
        decreases ports.len() - i,
    {
        if i < port_open.len() && port_open[i] {
            suspicious_ports.push(ports[i]);
        }
        i += 1;
    }

    let mut launch_agents: Vec<String> = Vec::new();
    let mut j: usize = 0;
    while j < agent_files.len()
        invariant
            j <= agent_files@.len(),
            string_views(launch_agents@) == agent_paths(agent_files@.take(j as int)),
        decreases agent_files.len() - j,
    {
        let ghost before = string_views(launch_agents@);
        assert(agent_files@.take(j + 1).drop_last() =~= agent_files@.take(j as int));
        assert(agent_files@.take(j + 1).last() == agent_files@[j as int]);
        let entry = &agent_files[j];
        if is_proctor_launch_agent(entry.1.as_str()) {
            launch_agents.push(entry.0.clone());
            assert(string_views(launch_agents@) =~= before.push(entry.0@));
        }
        j += 1;
    }
    assert(agent_files@.take(agent_files@.len() as int) =~= agent_files@);

    ProctorScanResult { running_proctors, suspicious_ports, launch_agents }
}

} // verus!
