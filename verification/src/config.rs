use vstd::prelude::*;

use crate::util::str_eq;

verus! {

/// One registered session, as stored in the registry namespace of the
/// persisted document.
#[derive(Clone, Debug)]
pub struct SessionRecord {
    /// The unique key the session is registered under.
    pub reg_name: String,
    /// The session's real, system-level name.
    pub real_name: String,
    /// Command that ends the session, if one was configured.
    pub logout_command: Option<String>,
    /// Stored protocol identifier, if the record carries one.
    pub protocol: Option<String>,
}

/// Mathematical image of a record.
pub struct RecordModel {
    pub reg_name: Seq<char>,
    pub real_name: Seq<char>,
    pub logout_command: Option<Seq<char>>,
    pub protocol: Option<Seq<char>>,
}

/// The image of an optional owned string.
pub open spec fn opt_view(o: Option<String>) -> Option<Seq<char>> {
    match o {
        Some(s) => Some(s@),
        None => None,
    }
}

impl View for SessionRecord {
    type V = RecordModel;

    open spec fn view(&self) -> RecordModel {
        RecordModel {
            reg_name: self.reg_name@,
            real_name: self.real_name@,
            logout_command: opt_view(self.logout_command),
            protocol: opt_view(self.protocol),
        }
    }
}

/// The registration names of a record sequence are pairwise distinct.
pub open spec fn distinct_names(rs: Seq<SessionRecord>) -> bool {
    forall|i: int, j: int|
        0 <= i < j < rs.len() ==> rs[i].reg_name@ != rs[j].reg_name@
}

/// The finite map a record sequence denotes: registration name to record.
/// Later entries win, so on sequences with distinct names every entry is
/// visible.
pub open spec fn record_map_of(rs: Seq<SessionRecord>) -> Map<Seq<char>, RecordModel>
    decreases rs.len(),
{
    if rs.len() == 0 {
        Map::empty()
    } else {
        record_map_of(rs.drop_last()).insert(rs.last().reg_name@, rs.last()@)
    }
}

pub proof fn lemma_record_map_contains(rs: Seq<SessionRecord>, n: Seq<char>)
    ensures
        record_map_of(rs).contains_key(n) <==> exists|i: int|
            0 <= i < rs.len() && rs[i].reg_name@ == n,
    decreases rs.len(),
{
    if rs.len() > 0 {
        let prefix = rs.drop_last();
        lemma_record_map_contains(prefix, n);
        if rs.last().reg_name@ == n {
            assert(rs[rs.len() - 1].reg_name@ == n);
        } else {
            if exists|i: int| 0 <= i < rs.len() && rs[i].reg_name@ == n {
                let i = choose|i: int| 0 <= i < rs.len() && rs[i].reg_name@ == n;
                assert(i < rs.len() - 1);
                assert(prefix[i].reg_name@ == n);
            }
            if exists|i: int| 0 <= i < prefix.len() && prefix[i].reg_name@ == n {
                let i = choose|i: int| 0 <= i < prefix.len() && prefix[i].reg_name@ == n;
                assert(rs[i].reg_name@ == n);
            }
        }
    }
}

pub proof fn lemma_record_map_get(rs: Seq<SessionRecord>, i: int)
    requires
        0 <= i < rs.len(),
        distinct_names(rs),
    ensures
        record_map_of(rs).contains_key(rs[i].reg_name@),
        record_map_of(rs)[rs[i].reg_name@] == rs[i]@,
    decreases rs.len(),
{
    if i < rs.len() - 1 {
        let prefix = rs.drop_last();
        assert(distinct_names(prefix));
        assert(prefix[i] == rs[i]);
        lemma_record_map_get(prefix, i);
        assert(rs.last().reg_name@ != rs[i].reg_name@);
    }
}

pub proof fn lemma_record_map_push(rs: Seq<SessionRecord>, r: SessionRecord)
    ensures
        record_map_of(rs.push(r)) == record_map_of(rs).insert(r.reg_name@, r@),
{
    assert(rs.push(r).drop_last() =~= rs);
    assert(rs.push(r).last() == r);
}

pub proof fn lemma_record_map_remove(rs: Seq<SessionRecord>, i: int)
    requires
        0 <= i < rs.len(),
        distinct_names(rs),
    ensures
        record_map_of(rs.remove(i)) == record_map_of(rs).remove(rs[i].reg_name@),
    decreases rs.len(),
{
    let n = rs[i].reg_name@;
    if i == rs.len() - 1 {
        assert(rs.remove(i) =~= rs.drop_last());
        lemma_record_map_contains(rs.drop_last(), n);
        assert(forall|j: int|
            0 <= j < rs.drop_last().len() ==> rs.drop_last()[j].reg_name@ != n);
        assert(!record_map_of(rs.drop_last()).contains_key(n));
        assert(record_map_of(rs.drop_last()).insert(n, rs.last()@).remove(n) =~= record_map_of(
            rs.drop_last(),
        ));
    } else {
        let prefix = rs.drop_last();
        assert(distinct_names(prefix));
        lemma_record_map_remove(prefix, i);
        assert(rs.remove(i).drop_last() =~= prefix.remove(i));
        assert(rs.remove(i).last() == rs.last());
        assert(rs.last().reg_name@ != n);
        assert(record_map_of(prefix).remove(n).insert(rs.last().reg_name@, rs.last()@)
            =~= record_map_of(prefix).insert(rs.last().reg_name@, rs.last()@).remove(n));
    }
}

pub proof fn lemma_distinct_records_remove(rs: Seq<SessionRecord>, i: int)
    requires
        distinct_names(rs),
        0 <= i < rs.len(),
    ensures
        distinct_names(rs.remove(i)),
{
    let r = rs.remove(i);
    assert forall|p: int, q: int|
        0 <= p < q < r.len() implies r[p].reg_name@ != r[q].reg_name@ by {
        if p < i {
            assert(r[p] == rs[p]);
        } else {
            assert(r[p] == rs[p + 1]);
        }
        if q < i {
            assert(r[q] == rs[q]);
        } else {
            assert(r[q] == rs[q + 1]);
        }
    }
}

pub proof fn lemma_distinct_records_push(rs: Seq<SessionRecord>, rec: SessionRecord)
    requires
        distinct_names(rs),
        forall|j: int| 0 <= j < rs.len() ==> rs[j].reg_name@ != rec.reg_name@,
    ensures
        distinct_names(rs.push(rec)),
{
    let r = rs.push(rec);
    assert forall|p: int, q: int|
        0 <= p < q < r.len() implies r[p].reg_name@ != r[q].reg_name@ by {
        assert(r[p] == rs[p]);
        if q < rs.len() {
            assert(r[q] == rs[q]);
        } else {
            assert(r[q] == rec);
        }
    }
}

/// The session namespace of the persisted document.
#[derive(Clone, Debug)]
pub struct SessionTable {
    pub records: Vec<SessionRecord>,
    pub default: Option<String>,
    pub oneshot_session: Option<String>,
    pub oneshot_started: Option<bool>,
}

/// Mathematical image of the session namespace.
pub struct SessionTableModel {
    pub records: Map<Seq<char>, RecordModel>,
    pub default: Option<Seq<char>>,
    pub oneshot_session: Option<Seq<char>>,
    pub oneshot_started: Option<bool>,
}

impl View for SessionTable {
    type V = SessionTableModel;

    open spec fn view(&self) -> SessionTableModel {
        SessionTableModel {
            records: record_map_of(self.records@),
            default: opt_view(self.default),
            oneshot_session: opt_view(self.oneshot_session),
            oneshot_started: self.oneshot_started,
        }
    }
}

/// The login namespace of the persisted document.
#[derive(Clone, Debug)]
pub struct LoginTable {
    /// The configured login manager, if any.
    pub manager: Option<String>,
    /// Mirror of the external config's autologin state, if ever written.
    pub autologin_enable: Option<bool>,
    /// Mirror of the configured autologin user, if ever written.
    pub autologin_user: Option<String>,
}

/// Mathematical image of the login namespace.
pub struct LoginTableModel {
    pub manager: Option<Seq<char>>,
    pub autologin_enable: Option<bool>,
    pub autologin_user: Option<Seq<char>>,
}

impl View for LoginTable {
    type V = LoginTableModel;

    open spec fn view(&self) -> LoginTableModel {
        LoginTableModel {
            manager: opt_view(self.manager),
            autologin_enable: self.autologin_enable,
            autologin_user: opt_view(self.autologin_user),
        }
    }
}

/// The whole persisted document, as the engine sees it. The binary parses
/// the backing file into this shape once per run and serializes it back on
/// every save point.
#[derive(Clone, Debug)]
pub struct Configuration {
    pub session: SessionTable,
    pub login: LoginTable,
}

/// Mathematical image of the document.
pub struct ConfigurationModel {
    pub session: SessionTableModel,
    pub login: LoginTableModel,
}

impl View for Configuration {
    type V = ConfigurationModel;

    open spec fn view(&self) -> ConfigurationModel {
        ConfigurationModel { session: self.session@, login: self.login@ }
    }
}

impl Configuration {
    /// Well-formedness: registration names are pairwise distinct. Every
    /// operation of the registry preserves this.
    pub open spec fn wf(self) -> bool {
        distinct_names(self.session.records@)
    }

    /// Runtime check of [`Configuration::wf`], for use after loading a
    /// document that outside hands could have edited.
    pub fn check_wf(&self) -> (r: bool)
        ensures
            r == self.wf(),
    {
        check_distinct(&self.session.records)
    }
}

fn check_distinct(records: &Vec<SessionRecord>) -> (r: bool)
    ensures
        r == distinct_names(records@),
{
    let n = records.len();
    let mut i: usize = 1;
    while i < n
        invariant
            n == records@.len(),
            1 <= i || n == 0,
            i <= n || n == 0,
            forall|p: int, q: int|
                0 <= p < q < i && q < n ==> records@[p].reg_name@ != records@[q].reg_name@,
        decreases n - i,
    {
        let mut j: usize = 0;
        while j < i
            invariant
                j <= i,
                i < n,
                n == records@.len(),
                forall|q: int| 0 <= q < j ==> records@[q].reg_name@ != records@[i as int].reg_name@,
            decreases i - j,
        {
            if str_eq(records[j].reg_name.as_str(), records[i].reg_name.as_str()) {
                return false;
            }
            j = j + 1;
        }
        i = i + 1;
    }
    true
}

/// Index of the record registered under `name`, scanning from the front.
pub(crate) fn find_record_index(records: &Vec<SessionRecord>, name: &str) -> (r: Option<usize>)
    ensures
        match r {
            Some(i) => i < records@.len() && records@[i as int].reg_name@ == name@,
            None => forall|i: int| 0 <= i < records@.len() ==> records@[i].reg_name@ != name@,
        },
{
    let mut i: usize = 0;
    while i < records.len()
        invariant
            i <= records@.len(),
            forall|j: int| 0 <= j < i ==> records@[j].reg_name@ != name@,
        decreases records@.len() - i,
    {
        if str_eq(records[i].reg_name.as_str(), name) {
            return Some(i);
        }
        i = i + 1;
    }
    None
}

} // verus!
