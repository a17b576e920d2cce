use vstd::prelude::*;
use vstd::string::*;

verus! {

/// How one line of verifier output is read. A line that starts with `WARNING: ` carries a
/// warning and one that starts with `ERROR: ` an error, each being the rest of the line;
/// any other line is ordinary output.
pub enum LineKind {
    Warning(Seq<char>),
    Error(Seq<char>),
    Plain,
}

pub open spec fn warning_tag() -> Seq<char> {
    "WARNING: "@
}

pub open spec fn error_tag() -> Seq<char> {
    "ERROR: "@
}

pub open spec fn has_prefix(line: Seq<char>, tag: Seq<char>) -> bool {
    line.len() >= tag.len() && line.subrange(0, tag.len() as int) == tag
}

pub open spec fn classify(line: Seq<char>) -> LineKind {
    if has_prefix(line, warning_tag()) {
        LineKind::Warning(line.subrange(warning_tag().len() as int, line.len() as int))
    } else if has_prefix(line, error_tag()) {
        LineKind::Error(line.subrange(error_tag().len() as int, line.len() as int))
    } else {
        LineKind::Plain
    }
}

/// The warnings carried by `lines`, in order.
pub open spec fn warnings_in(lines: Seq<Seq<char>>) -> Seq<Seq<char>>
    decreases lines.len(),
{
    if lines.len() == 0 {
        Seq::empty()
    } else {
        warnings_in(lines.drop_last()) + match classify(lines.last()) {
            LineKind::Warning(m) => seq![m],
            _ => Seq::empty(),
        }
    }
}

/// The errors carried by `lines`, in order.
pub open spec fn errors_in(lines: Seq<Seq<char>>) -> Seq<Seq<char>>
    decreases lines.len(),
{
    if lines.len() == 0 {
        Seq::empty()
    } else {
        errors_in(lines.drop_last()) + match classify(lines.last()) {
            LineKind::Error(m) => seq![m],
            _ => Seq::empty(),
        }
    }
}

pub open spec fn view_strings(v: Seq<String>) -> Seq<Seq<char>> {
    v.map_values(|s: String| s@)
}

/// The result of verifying one test type of one test.
#[derive(Clone, Debug)]
pub struct Verification {
    pub framework_name: String,
    pub test_name: String,
    pub test_type_name: String,
    pub warnings: Vec<String>,
    pub errors: Vec<String>,
}

fn starts_with_tag(line: &str, tag: &str) -> (r: bool)
    requires
        line@.len() <= usize::MAX,
    ensures
        r == has_prefix(line@, tag@),
{
    let n = line.unicode_len();
    let m = tag.unicode_len();
    if n < m {
        return false;
    }
    let mut j: usize = 0;
    while j < m
        invariant
            n == line@.len(),
            m == tag@.len(),
            m <= n,
            j <= m,
            forall|t: int| 0 <= t < j ==> line@[t] == tag@[t],
        decreases m - j,
    {
        if line.get_char(j) != tag.get_char(j) {
            assert(line@.subrange(0, m as int)[j as int] != tag@[j as int]);
            return false;
        }
        j = j + 1;
    }
    assert(line@.subrange(0, m as int) =~= tag@);
    true
}

impl Verification {
    /// An empty result for one test type.
    pub fn new(framework_name: &str, test_name: &str, test_type_name: &str) -> (r: Verification)
        ensures
            r.framework_name@ == framework_name@,
            r.test_name@ == test_name@,
            r.test_type_name@ == test_type_name@,
            r.warnings@.len() == 0,
            r.errors@.len() == 0,
    {
        Verification {
            framework_name: framework_name.to_owned(),
            test_name: test_name.to_owned(),
            test_type_name: test_type_name.to_owned(),
            warnings: Vec::new(),
            errors: Vec::new(),
        }
    }

    /// Reads one line of verifier output: a warning or an error is appended to the result,
    /// and an ordinary line is handed back for the log.
    pub fn record_line(&mut self, line: &str) -> (relay: Option<String>)
        ensures
            final(self).framework_name == old(self).framework_name,
            final(self).test_name == old(self).test_name,
            final(self).test_type_name == old(self).test_type_name,
            view_strings(final(self).warnings@) == view_strings(old(self).warnings@) + match classify(line@) {
                LineKind::Warning(m) => seq![m],
                _ => Seq::<Seq<char>>::empty(),
            },
            view_strings(final(self).errors@) == view_strings(old(self).errors@) + match classify(line@) {
                LineKind::Error(m) => seq![m],
                _ => Seq::<Seq<char>>::empty(),
            },
            match relay {
                Some(s) => classify(line@) is Plain && s@ == line@,
                None => !(classify(line@) is Plain),
            },
    {
        let n = line.unicode_len();
        proof {
            reveal_strlit("WARNING: ");
            reveal_strlit("ERROR: ");
        }
        if starts_with_tag(line, "WARNING: ") {
            let msg = line.substring_char(9, n).to_owned();
            self.warnings.push(msg);
            assert(view_strings(self.warnings@) =~= view_strings(old(self).warnings@) + seq![msg@]);
            assert(view_strings(self.errors@) =~= view_strings(old(self).errors@) + Seq::<Seq<char>>::empty());
            None
        } else if starts_with_tag(line, "ERROR: ") {
            let msg = line.substring_char(7, n).to_owned();
            self.errors.push(msg);
            assert(view_strings(self.errors@) =~= view_strings(old(self).errors@) + seq![msg@]);
            assert(view_strings(self.warnings@) =~= view_strings(old(self).warnings@) + Seq::<Seq<char>>::empty());
            None
        } else {
            assert(view_strings(self.errors@) =~= view_strings(old(self).errors@) + Seq::<Seq<char>>::empty());
            assert(view_strings(self.warnings@) =~= view_strings(old(self).warnings@) + Seq::<Seq<char>>::empty());
            Some(line.to_owned())
        }
    }

    /// Reads a run of verifier output lines in order. Afterwards the result holds exactly
    /// the warnings and errors those lines carry, in the order they came, after those it
    /// held before; ordinary lines add nothing to it.
    pub fn record_lines(&mut self, lines: &Vec<String>)
        ensures
            final(self).framework_name == old(self).framework_name,
            final(self).test_name == old(self).test_name,
            final(self).test_type_name == old(self).test_type_name,
            view_strings(final(self).warnings@) == view_strings(old(self).warnings@) + warnings_in(
                view_strings(lines@),
            ),
            view_strings(final(self).errors@) == view_strings(old(self).errors@) + errors_in(
                view_strings(lines@),
            ),
    {
        let mut i: usize = 0;
        assert(view_strings(lines@).subrange(0, 0) =~= Seq::<Seq<char>>::empty());
        assert(view_strings(self.warnings@) + warnings_in(Seq::empty()) =~= view_strings(self.warnings@));
        assert(view_strings(self.errors@) + errors_in(Seq::empty()) =~= view_strings(self.errors@));
        while i < lines.len()
            invariant
                i <= lines@.len(),
                self.framework_name == old(self).framework_name,
                self.test_name == old(self).test_name,
                self.test_type_name == old(self).test_type_name,
                view_strings(self.warnings@) == view_strings(old(self).warnings@) + warnings_in(
                    view_strings(lines@).subrange(0, i as int),
                ),
                view_strings(self.errors@) == view_strings(old(self).errors@) + errors_in(
                    view_strings(lines@).subrange(0, i as int),
                ),
            decreases lines@.len() - i,
        {
            let ghost pre = view_strings(lines@).subrange(0, i as int);
            let ghost next = view_strings(lines@).subrange(0, i + 1);
            assert(next.drop_last() =~= pre);
            assert(next.last() == lines@[i as int]@);
            let _ = self.record_line(lines[i].as_str());
            assert(view_strings(self.warnings@) =~= view_strings(old(self).warnings@) + warnings_in(next));
            assert(view_strings(self.errors@) =~= view_strings(old(self).errors@) + errors_in(next));
            i = i + 1;
        }
        assert(view_strings(lines@).subrange(0, i as int) =~= view_strings(lines@));
    }
}

} // verus!
