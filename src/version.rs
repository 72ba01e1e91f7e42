use vstd::prelude::*;
use vstd::string::*;

verus! {

/// The six provenance strings of a [`BuildInfo`], as sequences of characters.
pub struct BuildInfoView {
    pub version: Seq<char>,
    pub git_revision: Seq<char>,
    pub rust_version: Seq<char>,
    pub build_profile: Seq<char>,
    pub build_status: Seq<char>,
    pub git_tag: Seq<char>,
}

/// The single-line form of a record. Each field is put in verbatim, without
/// escaping, and the fields come in this fixed order: toolchain, profile,
/// status, tag, version, revision.
pub open spec fn line_of(v: BuildInfoView) -> Seq<char> {
    "version.BuildInfo{RustVersion:\""@ + v.rust_version
        + "\", BuildProfile:\""@ + v.build_profile
        + "\", BuildStatus:\""@ + v.build_status
        + "\", GitTag:\""@ + v.git_tag
        + "\", Version:\""@ + v.version
        + "\", GitRevision:\""@ + v.git_revision
        + "\"}"@
}

/// The structured form of a record: one key/value pair per field, in the order
/// in which the fields are declared. Values are the raw field strings.
pub open spec fn record_of(v: BuildInfoView) -> Seq<(Seq<char>, Seq<char>)> {
    seq![
        ("version"@, v.version),
        ("git_revision"@, v.git_revision),
        ("rust_version"@, v.rust_version),
        ("build_profile"@, v.build_profile),
        ("build_status"@, v.build_status),
        ("git_tag"@, v.git_tag),
    ]
}

/// `t` stands in `s` unchanged, starting at index `i`.
pub open spec fn occurs_at(s: Seq<char>, i: nat, t: Seq<char>) -> bool {
    i + t.len() <= s.len() && s.subrange(i as int, (i + t.len()) as int) == t
}

/// The keys of a structured record, in order.
pub open spec fn keys_of(r: Seq<(Seq<char>, Seq<char>)>) -> Seq<Seq<char>> {
    r.map_values(|e: (Seq<char>, Seq<char>)| e.0)
}

/// Both renderings depend on the six fields alone: records with equal fields,
/// or one record rendered twice, give the same line and the same key/value pairs.
pub proof fn lemma_renderings_depend_on_fields_only(a: BuildInfoView, b: BuildInfoView)
    requires
        a == b,
    ensures
        line_of(a) == line_of(b),
        record_of(a) == record_of(b),
{
}

/// The structured form holds exactly the keys `version`, `git_revision`,
/// `rust_version`, `build_profile`, `build_status` and `git_tag`, each once,
/// whatever the field values.
pub proof fn lemma_record_key_set(v: BuildInfoView)
    ensures
        keys_of(record_of(v)).no_duplicates(),
        keys_of(record_of(v)).to_set() == set![
            "version"@,
            "git_revision"@,
            "rust_version"@,
            "build_profile"@,
            "build_status"@,
            "git_tag"@,
        ],
{
    reveal_strlit("version");
    reveal_strlit("git_revision");
    reveal_strlit("rust_version");
    reveal_strlit("build_profile");
    reveal_strlit("build_status");
    reveal_strlit("git_tag");
    let k = keys_of(record_of(v));
    assert(k =~= seq![
        "version"@,
        "git_revision"@,
        "rust_version"@,
        "build_profile"@,
        "build_status"@,
        "git_tag"@,
    ]);
    assert(k[0][0] != k[1][0] && k[0].len() != k[2].len() && k[0][0] != k[3][0]);
    assert(k[0][0] != k[4][0] && k[0][0] != k[5][0] && k[1][0] != k[2][0]);
    assert(k[1].len() != k[3].len() && k[1][0] != k[4][0] && k[1][4] != k[5][4]);
    assert(k[2].len() != k[3].len() && k[2][0] != k[4][0] && k[2][0] != k[5][0]);
    assert(k[3].len() != k[4].len() && k[3][0] != k[5][0] && k[4][0] != k[5][0]);
    assert(k.to_set() =~= set![k[0], k[1], k[2], k[3], k[4], k[5]]) by {
        assert forall|x: Seq<char>| k.to_set().contains(x) implies
            set![k[0], k[1], k[2], k[3], k[4], k[5]].contains(x) by {
            let i = choose|i: int| 0 <= i < k.len() && k[i] == x;
        }
        assert(k.contains(k[0]) && k.contains(k[1]) && k.contains(k[2]));
        assert(k.contains(k[3]) && k.contains(k[4]) && k.contains(k[5]));
    }
}

/// Neither rendering escapes or alters a field. The structured form pairs each
/// key with its field as it is; the line holds each field verbatim at a fixed
/// place after the template text and the fields before it, and is exactly the
/// template's 105 characters longer than the six fields together.
pub proof fn lemma_fields_verbatim(v: BuildInfoView)
    ensures
        record_of(v)[0].1 == v.version,
        record_of(v)[1].1 == v.git_revision,
        record_of(v)[2].1 == v.rust_version,
        record_of(v)[3].1 == v.build_profile,
        record_of(v)[4].1 == v.build_status,
        record_of(v)[5].1 == v.git_tag,
        line_of(v).len() == 105 + v.rust_version.len() + v.build_profile.len()
            + v.build_status.len() + v.git_tag.len() + v.version.len() + v.git_revision.len(),
        occurs_at(line_of(v), 31, v.rust_version),
        occurs_at(line_of(v), 48 + v.rust_version.len(), v.build_profile),
        occurs_at(
            line_of(v),
            64 + v.rust_version.len() + v.build_profile.len(),
            v.build_status,
        ),
        occurs_at(
            line_of(v),
            75 + v.rust_version.len() + v.build_profile.len() + v.build_status.len(),
            v.git_tag,
        ),
        occurs_at(
            line_of(v),
            87 + v.rust_version.len() + v.build_profile.len() + v.build_status.len()
                + v.git_tag.len(),
            v.version,
        ),
        occurs_at(
            line_of(v),
            103 + v.rust_version.len() + v.build_profile.len() + v.build_status.len()
                + v.git_tag.len() + v.version.len(),
            v.git_revision,
        ),
{
    reveal_strlit("version.BuildInfo{RustVersion:\"");
    reveal_strlit("\", BuildProfile:\"");
    reveal_strlit("\", BuildStatus:\"");
    reveal_strlit("\", GitTag:\"");
    reveal_strlit("\", Version:\"");
    reveal_strlit("\", GitRevision:\"");
    reveal_strlit("\"}");
    let l = line_of(v);
    let a0 = 31int;
    let a1 = a0 + v.rust_version.len() + 17;
    let a2 = a1 + v.build_profile.len() + 16;
    let a3 = a2 + v.build_status.len() + 11;
    let a4 = a3 + v.git_tag.len() + 12;
    let a5 = a4 + v.version.len() + 16;
    assert(l.subrange(a0, a0 + v.rust_version.len()) =~= v.rust_version);
    assert(l.subrange(a1, a1 + v.build_profile.len()) =~= v.build_profile);
    assert(l.subrange(a2, a2 + v.build_status.len()) =~= v.build_status);
    assert(l.subrange(a3, a3 + v.git_tag.len()) =~= v.git_tag);
    assert(l.subrange(a4, a4 + v.version.len()) =~= v.version);
    assert(l.subrange(a5, a5 + v.git_revision.len()) =~= v.git_revision);
}

/// Build provenance of a binary. Every field is an opaque string, set once when
/// the value is made and never changed afterwards.
#[derive(Debug)]
pub struct BuildInfo {
    version: String,
    git_revision: String,
    rust_version: String,
    build_profile: String,
    build_status: String,
    git_tag: String,
}

impl View for BuildInfo {
    type V = BuildInfoView;

    closed spec fn view(&self) -> BuildInfoView {
        BuildInfoView {
            version: self.version@,
            git_revision: self.git_revision@,
            rust_version: self.rust_version@,
            build_profile: self.build_profile@,
            build_status: self.build_status@,
            git_tag: self.git_tag@,
        }
    }
}

impl BuildInfo {
    /// Makes the record from the six strings captured when the binary was built.
    /// Each field holds its argument unchanged.
    pub fn new(
        version: String,
        git_revision: String,
        rust_version: String,
        build_profile: String,
        build_status: String,
        git_tag: String,
    ) -> (r: BuildInfo)
        ensures
            r@ == (BuildInfoView {
                version: version@,
                git_revision: git_revision@,
                rust_version: rust_version@,
                build_profile: build_profile@,
                build_status: build_status@,
                git_tag: git_tag@,
            }),
    {
        BuildInfo { version, git_revision, rust_version, build_profile, build_status, git_tag }
    }

    /// The single-line textual form of the record.
    pub fn to_string(&self) -> (r: String)
        ensures
            r@ == line_of(self@),
    {
        let mut r = String::from_str("version.BuildInfo{RustVersion:\"");
        r.append(self.rust_version.as_str());
        r.append("\", BuildProfile:\"");
        r.append(self.build_profile.as_str());
        r.append("\", BuildStatus:\"");
        r.append(self.build_status.as_str());
        r.append("\", GitTag:\"");
        r.append(self.git_tag.as_str());
        r.append("\", Version:\"");
        r.append(self.version.as_str());
        r.append("\", GitRevision:\"");
        r.append(self.git_revision.as_str());
        r.append("\"}");
        r
    }

    /// The structured form of the record: six key/value pairs, keyed by the
    /// field names in declaration order.
    pub fn serialize(&self) -> (r: Vec<(String, String)>)
        ensures
            r@.len() == 6,
            forall|i: int| 0 <= i < 6 ==> (#[trigger] r@[i].0@, r@[i].1@) == record_of(self@)[i],
    {
        let mut r: Vec<(String, String)> = Vec::new();
        r.push((String::from_str("version"), self.version.clone()));
        r.push((String::from_str("git_revision"), self.git_revision.clone()));
        r.push((String::from_str("rust_version"), self.rust_version.clone()));
        r.push((String::from_str("build_profile"), self.build_profile.clone()));
        r.push((String::from_str("build_status"), self.build_status.clone()));
        r.push((String::from_str("git_tag"), self.git_tag.clone()));
        r
    }

    /// The release version, as captured.
    pub fn version(&self) -> (r: &str)
        ensures
            r@ == self@.version,
    {
        self.version.as_str()
    }

    /// The version-control revision, as captured.
    pub fn git_revision(&self) -> (r: &str)
        ensures
            r@ == self@.git_revision,
    {
        self.git_revision.as_str()
    }

    /// The toolchain version, as captured.
    pub fn rust_version(&self) -> (r: &str)
        ensures
            r@ == self@.rust_version,
    {
        self.rust_version.as_str()
    }

    /// The build profile name, as captured.
    pub fn build_profile(&self) -> (r: &str)
        ensures
            r@ == self@.build_profile,
    {
        self.build_profile.as_str()
    }

    /// The build status marker, as captured.
    pub fn build_status(&self) -> (r: &str)
        ensures
            r@ == self@.build_status,
    {
        self.build_status.as_str()
    }

    /// The version-control tag, as captured.
    pub fn git_tag(&self) -> (r: &str)
        ensures
            r@ == self@.git_tag,
    {
        self.git_tag.as_str()
    }

}

impl Clone for BuildInfo {
    /// A copy with the same six fields.
    fn clone(&self) -> (r: BuildInfo)
        ensures
            r@ == self@,
    {
        BuildInfo {
            version: self.version.clone(),
            git_revision: self.git_revision.clone(),
            rust_version: self.rust_version.clone(),
            build_profile: self.build_profile.clone(),
            build_status: self.build_status.clone(),
            git_tag: self.git_tag.clone(),
        }
    }
}

impl Default for BuildInfo {
    /// A record whose six fields are all empty.
    fn default() -> (r: BuildInfo)
        ensures
            r@.version.len() == 0,
            r@.git_revision.len() == 0,
            r@.rust_version.len() == 0,
            r@.build_profile.len() == 0,
            r@.build_status.len() == 0,
            r@.git_tag.len() == 0,
    {
        BuildInfo {
            version: String::new(),
            git_revision: String::new(),
            rust_version: String::new(),
            build_profile: String::new(),
            build_status: String::new(),
            git_tag: String::new(),
        }
    }
}

impl PartialEq for BuildInfo {
    /// Two records are equal when all six fields are.
    fn eq(&self, o: &BuildInfo) -> (r: bool)
        ensures
            r == (self@ == o@),
    {
        self.version == o.version && self.git_revision == o.git_revision
            && self.rust_version == o.rust_version && self.build_profile == o.build_profile
            && self.build_status == o.build_status && self.git_tag == o.git_tag
    }
}

impl vstd::std_specs::cmp::PartialEqSpecImpl for BuildInfo {
    open spec fn obeys_eq_spec() -> bool {
        true
    }

    open spec fn eq_spec(&self, o: &BuildInfo) -> bool {
        self@ == o@
    }
}

} // verus!
