//! The review context projected from a review request: the files a
//! backend may read, the prompt section that lists them, and the JSON
//! context handed to a backend and read back from it.
use vstd::prelude::*;

use crate::backend::BackendRequest;
use crate::json::{
    json_string_field, optional_string, payload_string_field, string_array, write_optional_string,
    write_string_array,
};
use crate::text::{clone_opt, clone_strings, join_with, opt_view, owned, strings_view};
use crate::tools::ReviewDiffInput;

verus! {

/// Every field of a review request that the review backend reads.
#[derive(Debug, Clone)]
pub struct ContextProjection {
    pub goal: String,
    pub diff_path: String,
    pub context_path: Option<String>,
    pub test_log_path: Option<String>,
    pub build_log_path: Option<String>,
    pub focus: Vec<String>,
    pub constraints: Vec<String>,
    pub base_branch: Option<String>,
    pub working_branch: Option<String>,
}

/// The items of `s` as a sequence of zero or one element.
pub open spec fn opt_seq(s: Option<String>) -> Seq<Seq<char>> {
    match s {
        Some(v) => seq![v@],
        None => Seq::empty(),
    }
}

/// `text` when `s` holds `v`, with `v` put between `before` and `after`.
pub open spec fn opt_line(s: Option<String>, before: Seq<char>, after: Seq<char>) -> Seq<char> {
    match s {
        Some(v) => before + v@ + after,
        None => Seq::empty(),
    }
}

/// Each item as an indented bullet, joined with newlines.
pub open spec fn bullets(items: Seq<Seq<char>>) -> Seq<char> {
    join_with(items.map_values(|f: Seq<char>| "  - "@ + f), "\n"@)
}

/// A titled bullet list, or nothing for no items.
pub open spec fn bullet_block(title: Seq<char>, items: Seq<Seq<char>>) -> Seq<char> {
    if items.len() == 0 {
        Seq::empty()
    } else {
        title + bullets(items) + "\n"@
    }
}

/// The prompt section listing the available files, branches, focus areas
/// and constraints.
pub open spec fn context_section(c: ContextProjection) -> Seq<char> {
    "AVAILABLE FILES:\n"@ + "  - diff: "@ + c.diff_path@ + "\n"@
        + opt_line(c.context_path, "  - context: "@, "\n"@)
        + opt_line(c.test_log_path, "  - test log: "@, "\n"@)
        + opt_line(c.build_log_path, "  - build log: "@, "\n"@)
        + opt_line(c.base_branch, "\nBASE BRANCH: "@, "\n"@)
        + opt_line(c.working_branch, "WORKING BRANCH: "@, "\n"@)
        + bullet_block("\nFOCUS AREAS:\n"@, strings_view(c.focus@))
        + bullet_block("\nCONSTRAINTS:\n"@, strings_view(c.constraints@))
}

/// The files a backend may read: the diff, then the optional context,
/// test log and build log that are present.
pub open spec fn context_read_paths(c: ContextProjection) -> Seq<Seq<char>> {
    seq![c.diff_path@] + opt_seq(c.context_path) + opt_seq(c.test_log_path) + opt_seq(
        c.build_log_path,
    )
}

/// The JSON context handed to a backend, keys in sorted order as the
/// JSON writer emits an object.
pub open spec fn context_json(c: ContextProjection) -> Seq<char> {
    "{\"base_branch\":"@ + optional_string(opt_view(c.base_branch)) + ",\"build_log_path\":"@
        + optional_string(opt_view(c.build_log_path)) + ",\"constraints\":"@ + string_array(
        strings_view(c.constraints@),
    ) + ",\"context_path\":"@ + optional_string(opt_view(c.context_path)) + ",\"diff_path\":"@
        + optional_string(Some(c.diff_path@)) + ",\"focus\":"@ + string_array(
        strings_view(c.focus@),
    ) + ",\"test_log_path\":"@ + optional_string(opt_view(c.test_log_path))
        + ",\"working_branch\":"@ + optional_string(opt_view(c.working_branch)) + "}"@
}

/// The JSON array items of field `key` of the top-level object in `text`,
/// each as its string value when it is a string, as `serde_json` parses
/// it; `None` when the text is not a JSON object or the field is absent
/// or not an array.
pub uninterp spec fn json_array_items(text: Seq<char>, key: Seq<char>) -> Option<
    Seq<Option<Seq<char>>>,
>;

/// The string field `key` of the document `context_json(c)`: the value
/// written (`None` for `null`), and `None` for the array fields and for
/// keys the document does not have.
pub open spec fn context_string_field(c: ContextProjection, key: Seq<char>) -> Option<Seq<char>> {
    if key == "base_branch"@ {
        opt_view(c.base_branch)
    } else if key == "build_log_path"@ {
        opt_view(c.build_log_path)
    } else if key == "context_path"@ {
        opt_view(c.context_path)
    } else if key == "diff_path"@ {
        Some(c.diff_path@)
    } else if key == "test_log_path"@ {
        opt_view(c.test_log_path)
    } else if key == "working_branch"@ {
        opt_view(c.working_branch)
    } else {
        None
    }
}

/// Each string as a string item.
pub open spec fn as_items(s: Seq<Seq<char>>) -> Seq<Option<Seq<char>>> {
    s.map_values(|v: Seq<char>| Some(v))
}

/// The array field `key` of the document `context_json(c)`: its string
/// items, and `None` for the other fields and keys.
pub open spec fn context_array_field(c: ContextProjection, key: Seq<char>) -> Option<Seq<Option<Seq<char>>>> {
    if key == "focus"@ {
        Some(as_items(strings_view(c.focus@)))
    } else if key == "constraints"@ {
        Some(as_items(strings_view(c.constraints@)))
    } else {
        None
    }
}

/// Parses `text` with `serde_json` and reads array field `key`, giving
/// each item's string value where it is a string. A context document
/// written by `context_json` reads back its two string arrays as written.
#[verifier::external_body]
fn payload_array_field(text: &str, key: &str) -> (r: Option<Vec<Option<String>>>)
    ensures
        match r {
            Some(items) => json_array_items(text@, key@) == Some(
                items@.map_values(|o: Option<String>| opt_view(o)),
            ),
            None => json_array_items(text@, key@) is None,
        },
        forall|c: ContextProjection|
            #[trigger] context_json(c) == text@ ==> match r {
                Some(items) => context_array_field(c, key@) == Some(
                    items@.map_values(|o: Option<String>| opt_view(o)),
                ),
                None => context_array_field(c, key@) is None,
            },
{
    match serde_json::from_str::<serde_json::Value>(text) {
        Ok(value) => match value.get(key) {
            Some(serde_json::Value::Array(items)) => Some(
                items.iter().map(|item| item.as_str().map(|s| s.to_string())).collect(),
            ),
            _ => None,
        },
        Err(_) => None,
    }
}

/// The string items, in order, of a parsed JSON array.
pub open spec fn string_items(items: Seq<Option<Seq<char>>>) -> Seq<Seq<char>>
    decreases items.len(),
{
    if items.len() == 0 {
        Seq::empty()
    } else {
        string_items(items.drop_last()) + match items.last() {
            Some(s) => seq![s],
            None => Seq::empty(),
        }
    }
}

/// Taking the string items of all-string items gives the strings back.
proof fn lemma_string_items_of_strings(s: Seq<Seq<char>>)
    ensures
        string_items(as_items(s)) == s,
    decreases s.len(),
{
    if s.len() > 0 {
        lemma_string_items_of_strings(s.drop_last());
        assert(as_items(s).drop_last() =~= as_items(s.drop_last()));
        assert(string_items(as_items(s)) =~= s);
    } else {
        assert(as_items(s) =~= Seq::<Option<Seq<char>>>::empty());
    }
}

/// The keys of a context document are eight different strings.
proof fn lemma_context_keys()
    ensures
        "base_branch"@ != "build_log_path"@,
        "base_branch"@ != "context_path"@,
        "base_branch"@ != "diff_path"@,
        "base_branch"@ != "test_log_path"@,
        "base_branch"@ != "working_branch"@,
        "base_branch"@ != "focus"@,
        "base_branch"@ != "constraints"@,
        "build_log_path"@ != "context_path"@,
        "build_log_path"@ != "diff_path"@,
        "build_log_path"@ != "test_log_path"@,
        "build_log_path"@ != "working_branch"@,
        "build_log_path"@ != "focus"@,
        "build_log_path"@ != "constraints"@,
        "context_path"@ != "diff_path"@,
        "context_path"@ != "test_log_path"@,
        "context_path"@ != "working_branch"@,
        "context_path"@ != "focus"@,
        "context_path"@ != "constraints"@,
        "diff_path"@ != "test_log_path"@,
        "diff_path"@ != "working_branch"@,
        "diff_path"@ != "focus"@,
        "diff_path"@ != "constraints"@,
        "test_log_path"@ != "working_branch"@,
        "test_log_path"@ != "focus"@,
        "test_log_path"@ != "constraints"@,
        "working_branch"@ != "focus"@,
        "working_branch"@ != "constraints"@,
        "focus"@ != "constraints"@,
{
    reveal_strlit("base_branch");
    reveal_strlit("build_log_path");
    reveal_strlit("context_path");
    reveal_strlit("diff_path");
    reveal_strlit("test_log_path");
    reveal_strlit("working_branch");
    reveal_strlit("focus");
    reveal_strlit("constraints");
    assert("base_branch"@.len() == 11);
    assert("build_log_path"@.len() == 14);
    assert("context_path"@.len() == 12);
    assert("diff_path"@.len() == 9);
    assert("test_log_path"@.len() == 13);
    assert("working_branch"@.len() == 14);
    assert("focus"@.len() == 5);
    assert("constraints"@.len() == 11);
    assert("base_branch"@[0] != "constraints"@[0]);
    assert("build_log_path"@[0] != "working_branch"@[0]);
}

/// Two projections hold the same fields but for the goal.
pub open spec fn same_but_goal(a: ContextProjection, b: ContextProjection) -> bool {
    &&& a.diff_path@ == b.diff_path@
    &&& opt_view(a.context_path) == opt_view(b.context_path)
    &&& opt_view(a.test_log_path) == opt_view(b.test_log_path)
    &&& opt_view(a.build_log_path) == opt_view(b.build_log_path)
    &&& strings_view(a.focus@) == strings_view(b.focus@)
    &&& strings_view(a.constraints@) == strings_view(b.constraints@)
    &&& opt_view(a.base_branch) == opt_view(b.base_branch)
    &&& opt_view(a.working_branch) == opt_view(b.working_branch)
}

/// The string items of array field `key`, none when it is no array.
pub open spec fn array_strings(text: Seq<char>, key: Seq<char>) -> Seq<Seq<char>> {
    match json_array_items(text, key) {
        Some(items) => string_items(items),
        None => Seq::empty(),
    }
}

fn string_field_items(text: &str, key: &str) -> (r: Vec<String>)
    ensures
        strings_view(r@) == array_strings(text@, key@),
        forall|c: ContextProjection|
            #[trigger] context_json(c) == text@ ==> json_array_items(text@, key@)
                == context_array_field(c, key@),
{
    let mut out: Vec<String> = Vec::new();
    match payload_array_field(text, key) {
        Some(items) => {
            let ghost views = items@.map_values(|o: Option<String>| opt_view(o));
            let mut i: usize = 0;
            while i < items.len()
                invariant
                    i <= items.len(),
                    views == items@.map_values(|o: Option<String>| opt_view(o)),
                    strings_view(out@) == string_items(views.subrange(0, i as int)),
                decreases items.len() - i,
            {
                proof {
                    assert(views.subrange(0, i + 1).drop_last() =~= views.subrange(0, i as int));
                }
                match &items[i] {
                    Some(s) => {
                        out.push(owned(s.as_str()));
                    },
                    None => {},
                }
                assert(strings_view(out@) =~= string_items(views.subrange(0, i + 1)));
                i = i + 1;
            }
            assert(views.subrange(0, items.len() as int) =~= views);
        },
        None => {
            assert(strings_view(out@) =~= Seq::<Seq<char>>::empty());
        },
    }
    out
}

/// The projection a JSON backend context describes; `None` when the
/// context has no string `diff_path`.
pub open spec fn projection_of_context(text: Seq<char>, c: ContextProjection) -> bool {
    &&& json_string_field(text, "diff_path"@) == Some(c.diff_path@)
    &&& c.goal@.len() == 0
    &&& opt_view(c.context_path) == json_string_field(text, "context_path"@)
    &&& opt_view(c.test_log_path) == json_string_field(text, "test_log_path"@)
    &&& opt_view(c.build_log_path) == json_string_field(text, "build_log_path"@)
    &&& strings_view(c.focus@) == array_strings(text, "focus"@)
    &&& strings_view(c.constraints@) == array_strings(text, "constraints"@)
    &&& opt_view(c.base_branch) == json_string_field(text, "base_branch"@)
    &&& opt_view(c.working_branch) == json_string_field(text, "working_branch"@)
}

fn push_bullets(out: &mut String, items: &Vec<String>)
    ensures
        final(out)@ == old(out)@ + bullets(strings_view(items@)),
{
    let ghost views = strings_view(items@);
    let ghost start = out@;
    let mut i: usize = 0;
    while i < items.len()
        invariant
            i <= items.len(),
            views == strings_view(items@),
            out@ == start + bullets(views.subrange(0, i as int)),
        decreases items.len() - i,
    {
        proof {
            let pre = views.subrange(0, i + 1).map_values(|f: Seq<char>| "  - "@ + f);
            assert(pre.drop_last() =~= views.subrange(0, i as int).map_values(
                |f: Seq<char>| "  - "@ + f,
            ));
        }
        if i > 0 {
            out.append("\n");
        }
        out.append("  - ");
        out.append(items[i].as_str());
        proof {
            let pre = views.subrange(0, i + 1).map_values(|f: Seq<char>| "  - "@ + f);
            assert(pre.last() == "  - "@ + views[i as int]);
            if i == 0 {
                assert(out@ =~= start + bullets(views.subrange(0, i + 1)));
            } else {
                assert(out@ =~= start + bullets(views.subrange(0, i + 1)));
            }
        }
        i = i + 1;
    }
    assert(views.subrange(0, items.len() as int) =~= views);
}

fn push_opt_line(out: &mut String, s: &Option<String>, before: &str, after: &str)
    ensures
        final(out)@ == old(out)@ + opt_line(*s, before@, after@),
{
    match s {
        Some(v) => {
            out.append(before);
            out.append(v.as_str());
            out.append(after);
        },
        None => {},
    }
}

fn push_bullet_block(out: &mut String, title: &str, items: &Vec<String>)
    ensures
        final(out)@ == old(out)@ + bullet_block(title@, strings_view(items@)),
{
    if items.len() > 0 {
        out.append(title);
        push_bullets(out, items);
        out.append("\n");
    }
}

fn push_opt_path(paths: &mut Vec<String>, s: &Option<String>)
    ensures
        strings_view(final(paths)@) == strings_view(old(paths)@) + opt_seq(*s),
{
    match s {
        Some(v) => {
            paths.push(owned(v.as_str()));
        },
        None => {},
    }
    assert(strings_view(paths@) =~= strings_view(old(paths)@) + opt_seq(*s));
}

impl ContextProjection {
    /// The projection of the raw input fields.
    pub fn from_input(
        goal: String,
        diff_path: String,
        context_path: Option<String>,
        test_log_path: Option<String>,
        build_log_path: Option<String>,
        focus: Vec<String>,
        constraints: Vec<String>,
        base_branch: Option<String>,
        working_branch: Option<String>,
    ) -> (r: Self)
        ensures
            r == (ContextProjection {
                goal,
                diff_path,
                context_path,
                test_log_path,
                build_log_path,
                focus,
                constraints,
                base_branch,
                working_branch,
            }),
    {
        ContextProjection {
            goal,
            diff_path,
            context_path,
            test_log_path,
            build_log_path,
            focus,
            constraints,
            base_branch,
            working_branch,
        }
    }

    /// The projection of a review_diff request.
    pub fn from_review_diff_input(input: &ReviewDiffInput) -> (r: Self)
        ensures
            r.goal@ == input.goal@,
            r.diff_path@ == input.artifacts.diff_path@,
            opt_view(r.context_path) == opt_view(input.artifacts.context_path),
            opt_view(r.test_log_path) == opt_view(input.artifacts.test_log_path),
            opt_view(r.build_log_path) == opt_view(input.artifacts.build_log_path),
            r.focus@ == input.focus@,
            r.constraints@ == input.constraints@,
            opt_view(r.base_branch) == opt_view(input.repo.base_branch),
            opt_view(r.working_branch) == opt_view(input.repo.working_branch),
    {
        ContextProjection {
            goal: owned(input.goal.as_str()),
            diff_path: owned(input.artifacts.diff_path.as_str()),
            context_path: clone_opt(&input.artifacts.context_path),
            test_log_path: clone_opt(&input.artifacts.test_log_path),
            build_log_path: clone_opt(&input.artifacts.build_log_path),
            focus: clone_strings(&input.focus),
            constraints: clone_strings(&input.constraints),
            base_branch: clone_opt(&input.repo.base_branch),
            working_branch: clone_opt(&input.repo.working_branch),
        }
    }

    /// The projection a backend's JSON context describes, with an empty
    /// goal; refused with `missing diff_path` when the context has no
    /// string `diff_path`. Absent or non-string optional fields read as
    /// `None`, and non-string array items are skipped.
    ///
    /// A context written by `context_json` reads back as the projection it
    /// was written from, with an empty goal.
    pub fn from_backend_context(text: &str) -> (r: Result<Self, String>)
        ensures
            match r {
                Ok(c) => projection_of_context(text@, c),
                Err(e) => json_string_field(text@, "diff_path"@) is None && e@
                    == "missing diff_path"@,
            },
            forall|c0: ContextProjection|
                #[trigger] context_json(c0) == text@ ==> (r matches Ok(c) && c.goal@.len() == 0
                    && same_but_goal(c, c0)),
    {
        let diff_path = match payload_string_field(text, "diff_path") {
            Some(d) => d,
            None => {
                proof {
                    assert forall|c0: ContextProjection| #[trigger] context_json(c0) == text@ implies false by {
                        lemma_context_keys();
                        assert(context_string_field(c0, "diff_path"@) == Some(c0.diff_path@));
                    }
                }
                return Err(owned("missing diff_path"));
            },
        };
        let context_path = payload_string_field(text, "context_path");
        let test_log_path = payload_string_field(text, "test_log_path");
        let build_log_path = payload_string_field(text, "build_log_path");
        let focus = string_field_items(text, "focus");
        let constraints = string_field_items(text, "constraints");
        let base_branch = payload_string_field(text, "base_branch");
        let working_branch = payload_string_field(text, "working_branch");
        let r = ContextProjection {
            goal: String::new(),
            diff_path,
            context_path,
            test_log_path,
            build_log_path,
            focus,
            constraints,
            base_branch,
            working_branch,
        };
        proof {
            assert forall|c0: ContextProjection| #[trigger] context_json(c0) == text@ implies same_but_goal(r, c0) by {
                lemma_context_keys();
                lemma_string_items_of_strings(strings_view(c0.focus@));
                lemma_string_items_of_strings(strings_view(c0.constraints@));
            }
        }
        Ok(r)
    }

    /// The files a backend may read for this review.
    pub fn read_paths(&self) -> (r: Vec<String>)
        ensures
            strings_view(r@) == context_read_paths(*self),
    {
        let mut paths: Vec<String> = Vec::new();
        paths.push(owned(self.diff_path.as_str()));
        assert(strings_view(paths@) =~= seq![self.diff_path@]);
        push_opt_path(&mut paths, &self.context_path);
        push_opt_path(&mut paths, &self.test_log_path);
        push_opt_path(&mut paths, &self.build_log_path);
        paths
    }

    /// The JSON context text for a backend request.
    pub fn context_json(&self) -> (r: String)
        ensures
            r@ == context_json(*self),
    {
        let mut out = owned("{\"base_branch\":");
        out.append(write_optional_string(&self.base_branch).as_str());
        out.append(",\"build_log_path\":");
        out.append(write_optional_string(&self.build_log_path).as_str());
        out.append(",\"constraints\":");
        out.append(write_string_array(&self.constraints).as_str());
        out.append(",\"context_path\":");
        out.append(write_optional_string(&self.context_path).as_str());
        out.append(",\"diff_path\":");
        let d = write_optional_string(&Some(owned(self.diff_path.as_str())));
        out.append(d.as_str());
        out.append(",\"focus\":");
        out.append(write_string_array(&self.focus).as_str());
        out.append(",\"test_log_path\":");
        out.append(write_optional_string(&self.test_log_path).as_str());
        out.append(",\"working_branch\":");
        out.append(write_optional_string(&self.working_branch).as_str());
        out.append("}");
        assert(out@ =~= context_json(*self));
        out
    }

    /// The backend request for `operation` answering in `output_schema`.
    pub fn to_backend_request(&self, operation: &str, output_schema: &str) -> (r: BackendRequest)
        ensures
            r.goal@ == self.goal@,
            r.operation@ == operation@,
            r.output_schema@ == output_schema@,
            strings_view(r.read_paths@) == context_read_paths(*self),
            r.context@ == context_json(*self),
    {
        BackendRequest {
            goal: owned(self.goal.as_str()),
            operation: owned(operation),
            output_schema: owned(output_schema),
            read_paths: self.read_paths(),
            context: self.context_json(),
        }
    }

    /// The prompt section describing this context.
    pub fn render_context_section(&self) -> (r: String)
        ensures
            r@ == context_section(*self),
    {
        let mut section = owned("AVAILABLE FILES:\n");
        section.append("  - diff: ");
        section.append(self.diff_path.as_str());
        section.append("\n");
        push_opt_line(&mut section, &self.context_path, "  - context: ", "\n");
        push_opt_line(&mut section, &self.test_log_path, "  - test log: ", "\n");
        push_opt_line(&mut section, &self.build_log_path, "  - build log: ", "\n");
        push_opt_line(&mut section, &self.base_branch, "\nBASE BRANCH: ", "\n");
        push_opt_line(&mut section, &self.working_branch, "WORKING BRANCH: ", "\n");
        push_bullet_block(&mut section, "\nFOCUS AREAS:\n", &self.focus);
        push_bullet_block(&mut section, "\nCONSTRAINTS:\n", &self.constraints);
        assert(section@ =~= context_section(*self));
        section
    }
}

impl Default for ContextProjection {
    /// Empty goal and diff path, nothing else.
    fn default() -> (r: Self)
        ensures
            r.goal@.len() == 0,
            r.diff_path@.len() == 0,
            r.context_path is None,
            r.test_log_path is None,
            r.build_log_path is None,
            r.focus@.len() == 0,
            r.constraints@.len() == 0,
            r.base_branch is None,
            r.working_branch is None,
    {
        ContextProjection {
            goal: String::new(),
            diff_path: String::new(),
            context_path: None,
            test_log_path: None,
            build_log_path: None,
            focus: Vec::new(),
            constraints: Vec::new(),
            base_branch: None,
            working_branch: None,
        }
    }
}

} // verus!
