//! The catalogue of scripts a user can run, and what is read from a
//! script's file name and header comments.

use crate::text::{
    char_is_whitespace, char_to_uppercase, is_white, lines_of, lower_of, lowercase, text_lines,
    trim_text, trimmed, upper_of,
};
use vstd::prelude::*;

verus! {

/// Where a script comes from.
#[derive(Debug, Clone, Copy, PartialEq, Eq, Structural)]
pub enum ScriptType {
    /// Built into the host.
    Rust,
    /// A script file run by the interpreter.
    Rhai,
}

/// What the catalogue knows of one script.
#[derive(Debug, Clone)]
pub struct ScriptInfo {
    pub id: String,
    pub name: String,
    pub description: String,
    pub file_path: String,
    pub category: String,
    pub script_type: ScriptType,
}

/// The scripts found under a project root.
pub struct ScriptManager {
    pub scripts: Vec<ScriptInfo>,
    /// The directory the catalogue was made for.
    pub project_root: String,
}

/// The scripts of `s` with the given type, in catalogue order.
pub open spec fn of_type(s: Seq<ScriptInfo>, t: ScriptType) -> Seq<ScriptInfo> {
    s.filter(|x: ScriptInfo| x.script_type == t)
}

/// The scripts of `s` in the given category, in catalogue order.
pub open spec fn in_category(s: Seq<ScriptInfo>, category: Seq<char>) -> Seq<ScriptInfo> {
    s.filter(|x: ScriptInfo| x.category@ == category)
}

impl ScriptManager {
    /// An empty catalogue for `project_root`.
    pub fn new(project_root: String) -> (r: ScriptManager)
        ensures
            r.scripts@.len() == 0,
            r.project_root@ == project_root@,
    {
        ScriptManager { scripts: Vec::new(), project_root }
    }

    /// The first script whose id is `id`, if any.
    pub fn get_script_by_id(&self, id: &str) -> (r: Option<&ScriptInfo>)
        ensures
            r matches Some(s) ==> exists|i: int|
                0 <= i < self.scripts@.len() && self.scripts@[i] == *s && s.id@ == id@ && forall|
                    j: int,
                | 0 <= j < i ==> self.scripts@[j].id@ != id@,
            r is None ==> forall|i: int| 0 <= i < self.scripts@.len() ==> self.scripts@[i].id@ != id@,
    {
        let key = String::from_str(id);
        let mut i: usize = 0;
        while i < self.scripts.len()
            invariant
                i <= self.scripts@.len(),
                key@ == id@,
                forall|j: int| 0 <= j < i ==> self.scripts@[j].id@ != id@,
            decreases self.scripts@.len() - i,
        {
            if self.scripts[i].id == key {
                return Some(&self.scripts[i]);
            }
            i = i + 1;
        }
        None
    }

    /// The scripts of the given type, in catalogue order.
    pub fn get_scripts_by_type(&self, script_type: ScriptType) -> (r: Vec<&ScriptInfo>)
        ensures
            r@.len() == of_type(self.scripts@, script_type).len(),
            forall|i: int| 0 <= i < r@.len() ==> *r@[i] == of_type(self.scripts@, script_type)[i],
    {
        let mut r: Vec<&ScriptInfo> = Vec::new();
        let mut i: usize = 0;
        while i < self.scripts.len()
            invariant
                i <= self.scripts@.len(),
                r@.len() == of_type(self.scripts@.subrange(0, i as int), script_type).len(),
                forall|k: int|
                    0 <= k < r@.len() ==> *r@[k] == of_type(
                        self.scripts@.subrange(0, i as int),
                        script_type,
                    )[k],
            decreases self.scripts@.len() - i,
        {
            proof {
                let next = self.scripts@.subrange(0, i + 1);
                assert(next.drop_last() =~= self.scripts@.subrange(0, i as int));
                reveal(Seq::filter);
            }
            if self.scripts[i].script_type == script_type {
                r.push(&self.scripts[i]);
            }
            i = i + 1;
        }
        assert(self.scripts@.subrange(0, i as int) =~= self.scripts@);
        r
    }

    /// The scripts in `category`, in catalogue order.
    pub fn get_scripts_by_category(&self, category: &str) -> (r: Vec<&ScriptInfo>)
        ensures
            r@.len() == in_category(self.scripts@, category@).len(),
            forall|i: int| 0 <= i < r@.len() ==> *r@[i] == in_category(self.scripts@, category@)[i],
    {
        let key = String::from_str(category);
        let mut r: Vec<&ScriptInfo> = Vec::new();
        let mut i: usize = 0;
        while i < self.scripts.len()
            invariant
                i <= self.scripts@.len(),
                key@ == category@,
                r@.len() == in_category(self.scripts@.subrange(0, i as int), category@).len(),
                forall|k: int|
                    0 <= k < r@.len() ==> *r@[k] == in_category(
                        self.scripts@.subrange(0, i as int),
                        category@,
                    )[k],
            decreases self.scripts@.len() - i,
        {
            proof {
                let next = self.scripts@.subrange(0, i + 1);
                assert(next.drop_last() =~= self.scripts@.subrange(0, i as int));
                reveal(Seq::filter);
            }
            if self.scripts[i].category == key {
                r.push(&self.scripts[i]);
            }
            i = i + 1;
        }
        assert(self.scripts@.subrange(0, i as int) =~= self.scripts@);
        r
    }
}

/// What separates the words of a file name: whitespace, `_` and `-`.
pub open spec fn is_separator(c: char) -> bool {
    c == '_' || c == '-' || is_white(c)
}

/// The words of `s`: its maximal runs of non-separator characters, in order.
pub open spec fn words(s: Seq<char>) -> Seq<Seq<char>>
    decreases s.len(),
{
    if s.len() == 0 {
        Seq::empty()
    } else {
        let ws = words(s.drop_last());
        let c = s.last();
        if is_separator(c) {
            ws
        } else if s.len() >= 2 && !is_separator(s[s.len() - 2]) && ws.len() > 0 {
            ws.update(ws.len() - 1, ws.last().push(c))
        } else {
            ws.push(seq![c])
        }
    }
}

/// A word with its first character in upper case.
pub open spec fn capitalized(w: Seq<char>) -> Seq<char> {
    if w.len() == 0 {
        w
    } else {
        upper_of(w[0]) + w.drop_first()
    }
}

/// The words joined by single spaces.
pub open spec fn joined(ws: Seq<Seq<char>>) -> Seq<char>
    decreases ws.len(),
{
    if ws.len() == 0 {
        Seq::empty()
    } else if ws.len() == 1 {
        ws[0]
    } else {
        joined(ws.drop_last()) + " "@ + ws.last()
    }
}

/// The display name made from a file name: its words, each capitalised,
/// separated by single spaces.
pub open spec fn display_name(file_name: Seq<char>) -> Seq<char> {
    joined(words(file_name).map_values(|w: Seq<char>| capitalized(w)))
}

proof fn lemma_joined_push(ws: Seq<Seq<char>>, w: Seq<char>)
    ensures
        joined(ws.push(w)) == if ws.len() == 0 {
            w
        } else {
            joined(ws) + " "@ + w
        },
{
    assert(ws.push(w).drop_last() =~= ws);
}

proof fn lemma_joined_extend(ws: Seq<Seq<char>>, c: char)
    requires
        ws.len() > 0,
    ensures
        joined(ws.update(ws.len() - 1, ws.last().push(c))) == joined(ws).push(c),
{
    let vs = ws.update(ws.len() - 1, ws.last().push(c));
    assert(vs.drop_last() =~= ws.drop_last());
    if ws.len() == 1 {
        assert(joined(vs) == vs[0]);
    } else {
        assert((joined(ws.drop_last()) + " "@ + ws.last()).push(c) =~= joined(ws.drop_last()) + " "@
            + ws.last().push(c));
    }
}

impl ScriptManager {
    /// Turns a file name into a display name: `_` and `-` count as spaces,
    /// and each word starts with a capital (`hello_world` gives `Hello World`).
    pub fn format_script_name(&self, file_name: &str) -> (r: String)
        ensures
            r@ == display_name(file_name@),
    {
        let n = file_name.unicode_len();
        let mut out = String::new();
        let mut in_word = false;
        let mut started = false;
        let mut i: usize = 0;
        while i < n
            invariant
                n == file_name@.len(),
                i <= n,
                in_word == (i > 0 && !is_separator(file_name@[i - 1])),
                started == (words(file_name@.subrange(0, i as int)).len() > 0),
                in_word ==> words(file_name@.subrange(0, i as int)).len() > 0,
                in_word ==> words(file_name@.subrange(0, i as int)).last().len() > 0,
                out@ == display_name(file_name@.subrange(0, i as int)),
            decreases n - i,
        {
            let ghost pre = file_name@.subrange(0, i as int);
            let ghost next = file_name@.subrange(0, i + 1);
            let ghost ws = words(pre);
            let ghost caps = ws.map_values(|w: Seq<char>| capitalized(w));
            proof {
                assert(next.drop_last() =~= pre);
                assert(next.last() == file_name@[i as int]);
                if i > 0 {
                    assert(next[i - 1] == file_name@[i - 1]);
                }
            }
            let c = file_name.get_char(i);
            if c == '_' || c == '-' || char_is_whitespace(c) {
                in_word = false;
            } else if in_word {
                proof {
                    let w = ws.last();
                    assert(words(next) == ws.update(ws.len() - 1, w.push(c)));
                    assert(capitalized(w.push(c)) =~= capitalized(w).push(c));
                    assert(words(next).map_values(|w: Seq<char>| capitalized(w)) =~= caps.update(
                        caps.len() - 1,
                        caps.last().push(c),
                    ));
                    lemma_joined_extend(caps, c);
                }
                out.append(file_name.substring_char(i, i + 1));
            } else {
                proof {
                    assert(words(next) == ws.push(seq![c]));
                    assert(capitalized(seq![c]) =~= upper_of(c));
                    assert(words(next).map_values(|w: Seq<char>| capitalized(w)) =~= caps.push(
                        upper_of(c),
                    ));
                    lemma_joined_push(caps, upper_of(c));
                }
                if started {
                    out.append(" ");
                }
                let upper = char_to_uppercase(c);
                out.append(upper.as_str());
                in_word = true;
                started = true;
            }
            i = i + 1;
        }
        assert(file_name@.subrange(0, n as int) =~= file_name@);
        out
    }
}

/// The header comment that names a script.
pub const NAME_TAG: &'static str = "// @name:";

/// The header comment that describes a script.
pub const DESCRIPTION_TAG: &'static str = "// @description:";

/// What every comment line starts with.
pub const COMMENT_TAG: &'static str = "//";

/// How many lines at the top of a script are read for its header.
pub const HEADER_LINES: usize = 10;

/// Whether `s` starts with `p`.
pub open spec fn starts_with(s: Seq<char>, p: Seq<char>) -> bool {
    p.len() <= s.len() && s.subrange(0, p.len() as int) == p
}

/// The value after a header tag: the rest of the line, trimmed.
pub open spec fn tag_value(line: Seq<char>, tag: Seq<char>) -> Seq<char> {
    trimmed(line.subrange(tag.len() as int, line.len() as int))
}

/// The name and description read from the header lines from `i` on, given
/// what the lines before `i` gave. A later tag overrides an earlier one; the
/// first line that is neither blank nor a comment ends the header.
pub open spec fn header_from(
    lines: Seq<Seq<char>>,
    i: int,
    found: (Option<Seq<char>>, Option<Seq<char>>),
) -> (Option<Seq<char>>, Option<Seq<char>>)
    decreases lines.len() - i,
{
    if i < 0 || i >= lines.len() || i >= HEADER_LINES {
        found
    } else {
        let line = trimmed(lines[i]);
        if starts_with(line, NAME_TAG@) {
            header_from(lines, i + 1, (Some(tag_value(line, NAME_TAG@)), found.1))
        } else if starts_with(line, DESCRIPTION_TAG@) {
            header_from(lines, i + 1, (found.0, Some(tag_value(line, DESCRIPTION_TAG@))))
        } else if !starts_with(line, COMMENT_TAG@) && line.len() > 0 {
            found
        } else {
            header_from(lines, i + 1, found)
        }
    }
}

/// The name and description that the header of `content` gives, if any.
pub open spec fn script_header(content: Seq<char>) -> (Option<Seq<char>>, Option<Seq<char>>) {
    header_from(lines_of(content), 0, (None, None))
}

/// `s` with every space turned into `_`.
pub open spec fn underscored(s: Seq<char>) -> Seq<char> {
    s.map_values(|c: char| if c == ' ' { '_' } else { c })
}

/// The id of a script: `rhai_<category in lower case>_<file stem>`, with
/// spaces turned into `_`.
pub open spec fn script_id_spec(category: Seq<char>, file_stem: Seq<char>) -> Seq<char> {
    "rhai_"@ + underscored(lower_of(category)) + "_"@ + underscored(file_stem)
}

/// What a script without a description tag is described as.
pub open spec fn default_description(file_stem: Seq<char>) -> Seq<char> {
    "Rhai script: "@ + file_stem
}

fn has_prefix(s: &str, p: &str) -> (r: bool)
    ensures
        r == starts_with(s@, p@),
{
    let n = p.unicode_len();
    let m = s.unicode_len();
    if n > m {
        return false;
    }
    String::from_str(s.substring_char(0, n)) == String::from_str(p)
}

fn after_tag(line: &str, tag: &str) -> (r: String)
    requires
        starts_with(line@, tag@),
    ensures
        r@ == tag_value(line@, tag@),
{
    trim_text(line.substring_char(tag.unicode_len(), line.unicode_len()))
}

fn underscore_spaces(s: &str) -> (r: String)
    ensures
        r@ == underscored(s@),
{
    let n = s.unicode_len();
    let mut out = String::new();
    let mut i: usize = 0;
    while i < n
        invariant
            n == s@.len(),
            i <= n,
            out@ == underscored(s@.subrange(0, i as int)),
        decreases n - i,
    {
        let c = s.get_char(i);
        proof {
            reveal_strlit("_");
            assert(s@.subrange(i as int, i + 1) =~= seq![c]);
        }
        if c == ' ' {
            out.append("_");
        } else {
            out.append(s.substring_char(i, i + 1));
        }
        proof {
            assert(underscored(s@.subrange(0, i + 1)) =~= underscored(s@.subrange(0, i as int)).push(
                if c == ' ' {
                    '_'
                } else {
                    c
                },
            ));
        }
        i = i + 1;
    }
    assert(s@.subrange(0, n as int) =~= s@);
    out
}

impl ScriptManager {
    /// Reads the name and description from the header comments of a
    /// script's text: `// @name: ...` and `// @description: ...` among its
    /// first lines, before any code.
    pub fn extract_script_metadata(&self, content: &str) -> (r: (Option<String>, Option<String>))
        ensures
            r.deep_view() == script_header(content@),
    {
        let lines = text_lines(content);
        let ghost all = lines.deep_view();
        let mut name: Option<String> = None;
        let mut description: Option<String> = None;
        let mut i: usize = 0;
        while i < lines.len() && i < HEADER_LINES
            invariant
                all == lines.deep_view(),
                all == lines_of(content@),
                i <= lines@.len(),
                header_from(all, i as int, (name.deep_view(), description.deep_view()))
                    == script_header(content@),
            decreases lines@.len() - i,
        {
            let line = trim_text(lines[i].as_str());
            assert(all[i as int] == lines@[i as int]@);
            if has_prefix(line.as_str(), NAME_TAG) {
                name = Some(after_tag(line.as_str(), NAME_TAG));
            } else if has_prefix(line.as_str(), DESCRIPTION_TAG) {
                description = Some(after_tag(line.as_str(), DESCRIPTION_TAG));
            } else if !has_prefix(line.as_str(), COMMENT_TAG) && line.unicode_len() > 0 {
                return (name, description);
            }
            i = i + 1;
        }
        (name, description)
    }

    /// The id of a script in `category` whose file stem is `file_stem`.
    pub fn script_id(category: &str, file_stem: &str) -> (r: String)
        ensures
            r@ == script_id_spec(category@, file_stem@),
    {
        let mut id = String::from_str("rhai_");
        let lower = lowercase(category);
        let category_part = underscore_spaces(lower.as_str());
        id.append(category_part.as_str());
        id.append("_");
        let stem_part = underscore_spaces(file_stem);
        id.append(stem_part.as_str());
        id
    }

    /// Describes the script at `file_path` from its file stem and text: the
    /// header's name and description where it gives them, else a name made
    /// from the file stem and a generic description.
    pub fn create_script_info(
        &self,
        file_path: &str,
        file_stem: &str,
        category: &str,
        script_type: ScriptType,
        content: &str,
    ) -> (r: ScriptInfo)
        ensures
            r.id@ == script_id_spec(category@, file_stem@),
            r.name@ == match script_header(content@).0 {
                Some(n) => n,
                None => display_name(file_stem@),
            },
            r.description@ == match script_header(content@).1 {
                Some(d) => d,
                None => default_description(file_stem@),
            },
            r.file_path@ == file_path@,
            r.category@ == category@,
            r.script_type == script_type,
    {
        let (name, description) = self.extract_script_metadata(content);
        let name = match name {
            Some(n) => n,
            None => self.format_script_name(file_stem),
        };
        let description = match description {
            Some(d) => d,
            None => {
                let mut d = String::from_str("Rhai script: ");
                d.append(file_stem);
                d
            },
        };
        ScriptInfo {
            id: Self::script_id(category, file_stem),
            name,
            description,
            file_path: String::from_str(file_path),
            category: String::from_str(category),
            script_type,
        }
    }
}

} // verus!
