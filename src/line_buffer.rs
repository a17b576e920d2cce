use vstd::prelude::*;
use vstd::string::*;

use crate::verification::view_strings;

verus! {

/// The lines of `lines`, each followed by a newline, one after another.
pub open spec fn joined(lines: Seq<Seq<char>>) -> Seq<char>
    decreases lines.len(),
{
    if lines.len() == 0 {
        Seq::empty()
    } else {
        joined(lines.drop_last()) + lines.last() + seq!['\n']
    }
}

pub open spec fn no_newline(s: Seq<char>) -> bool {
    forall|i: int| 0 <= i < s.len() ==> s[i] != '\n'
}

/// Cuts a stream of output chunks into lines, holding back a line until its newline comes.
#[derive(Clone, Debug)]
pub struct LineBuffer {
    pub pending: String,
}

impl LineBuffer {
    pub open spec fn wf(&self) -> bool {
        no_newline(self.pending@)
    }

    pub fn new() -> (r: LineBuffer)
        ensures
            r.wf(),
            r.pending@.len() == 0,
    {
        LineBuffer { pending: String::new() }
    }

    /// Takes the next chunk and hands back the lines it completes, without their newlines;
    /// what follows the chunk's last newline is held back.
    pub fn feed(&mut self, chunk: &str) -> (lines: Vec<String>)
        requires
            old(self).wf(),
        ensures
            final(self).wf(),
            old(self).pending@ + chunk@ == joined(view_strings(lines@)) + final(self).pending@,
            forall|k: int| 0 <= k < lines@.len() ==> no_newline(#[trigger] lines@[k]@),
    {
        let n = chunk.unicode_len();
        let mut lines: Vec<String> = Vec::new();
        let mut start: usize = 0;
        let mut i: usize = 0;
        assert(old(self).pending@ + chunk@.subrange(0, 0) =~= joined(view_strings(lines@))
            + self.pending@ + chunk@.subrange(0, 0));
        while i < n
            invariant
                n == chunk@.len(),
                start <= i <= n,
                no_newline(self.pending@),
                no_newline(chunk@.subrange(start as int, i as int)),
                old(self).pending@ + chunk@.subrange(0, i as int) == joined(view_strings(lines@))
                    + self.pending@ + chunk@.subrange(start as int, i as int),
                forall|k: int| 0 <= k < lines@.len() ==> no_newline(#[trigger] lines@[k]@),
            decreases n - i,
        {
            let ghost before = lines@;
            let ghost pend = self.pending@;
            let ghost c = chunk@[i as int];
            assert(old(self).pending@ + chunk@.subrange(0, i + 1) =~= (old(self).pending@
                + chunk@.subrange(0, i as int)) + seq![c]);
            assert(chunk@.subrange(0, i + 1) =~= chunk@.subrange(0, i as int) + seq![
                chunk@[i as int],
            ]);
            if chunk.get_char(i) == '\n' {
                let seg = chunk.substring_char(start, i);
                let mut line = self.pending.clone();
                line.append(seg);
                lines.push(line);
                self.pending = String::new();
                let ghost lv = view_strings(lines@);
                assert(lv.drop_last() =~= view_strings(before));
                assert(lv.last() == line@);
                assert(joined(lv) == joined(lv.drop_last()) + lv.last() + seq!['\n']);
                assert(line@ =~= pend + chunk@.subrange(start as int, i as int));
                assert(old(self).pending@ + chunk@.subrange(0, i + 1) =~= joined(view_strings(before))
                    + line@ + seq![c]);
                assert(old(self).pending@ + chunk@.subrange(0, i + 1) =~= joined(lv));
                i = i + 1;
                start = i;
                assert(chunk@.subrange(start as int, i as int) =~= Seq::<char>::empty());
                assert(old(self).pending@ + chunk@.subrange(0, i as int) =~= joined(
                    view_strings(lines@),
                ) + self.pending@ + chunk@.subrange(start as int, i as int));
            } else {
                assert(chunk@.subrange(start as int, i + 1) =~= chunk@.subrange(
                    start as int,
                    i as int,
                ) + seq![chunk@[i as int]]);
                assert(old(self).pending@ + chunk@.subrange(0, i + 1) =~= joined(
                    view_strings(lines@),
                ) + pend + chunk@.subrange(start as int, i as int) + seq![c]);
                assert(old(self).pending@ + chunk@.subrange(0, i + 1) =~= joined(
                    view_strings(lines@),
                ) + self.pending@ + chunk@.subrange(start as int, i + 1));
                i = i + 1;
            }
        }
        let seg = chunk.substring_char(start, n);
        self.pending.append(seg);
        assert(chunk@.subrange(0, n as int) =~= chunk@);
        assert(old(self).pending@ + chunk@ =~= joined(view_strings(lines@)) + self.pending@);
        lines
    }

    /// At the end of the stream: the last line, where one was left without a newline.
    pub fn finish(&mut self) -> (last: Option<String>)
        ensures
            final(self).pending@.len() == 0,
            old(self).pending@.len() == 0 ==> last is None,
            old(self).pending@.len() > 0 ==> last is Some && last->0@ == old(self).pending@,
    {
        let s = self.pending.clone();
        self.pending = String::new();
        if s.unicode_len() == 0 {
            None
        } else {
            Some(s)
        }
    }
}

} // verus!
