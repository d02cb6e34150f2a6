//! Skills offered to the user: the built-in ones and those found as files in a workspace.
use vstd::prelude::*;
use crate::json::str_eq;
use crate::text::{
    chars_of, concat, first_line, first_line_of, owned, string_push, strip_prefix_repeated, trim,
    trim_start_matches, trim_str, unicode_upper_first, upper_first,
};

verus! {

/// A skill.
pub struct Skill {
    pub id: String,
    pub name: String,
    pub description: String,
    pub source: Option<String>,
}

/// The plain view of a skill: id, name, description and source.
pub open spec fn skill_view(s: Skill) -> (Seq<char>, Seq<char>, Seq<char>, Option<Seq<char>>) {
    (
        s.id@,
        s.name@,
        s.description@,
        match s.source {
            Some(x) => Some(x@),
            None => None,
        },
    )
}

/// The built-in skills, in order.
pub open spec fn builtin_skill_table() -> Seq<(Seq<char>, Seq<char>, Seq<char>, Option<Seq<char>>)> {
    seq![
        ("ask"@, "Ask"@, "Ask the codebase questions"@, Some("built-in"@)),
        ("git-ai-search"@, "Git AI Search"@, "Search git history with AI"@, Some("built-in"@)),
        ("prompt-analysis"@, "Prompt Analysis"@, "Analyze prompt patterns"@, Some("built-in"@)),
        ("daves-vibe-guide"@, "Daves Vibe Guide"@, "Fork-Track system guide"@, Some("built-in"@)),
        ("daves-vibe-check"@, "Daves Vibe Check"@, "Check upstream updates"@, Some("built-in"@)),
        ("daves-vibe-sync"@, "Daves Vibe Sync"@, "Sync with upstream"@, Some("built-in"@)),
        ("daves-vibe-review"@, "Daves Vibe Review"@, "Review upstream commits"@, Some("built-in"@)),
        ("daves-vibe-mod"@, "Daves Vibe Mod"@, "Record mod decisions"@, Some("built-in"@)),
    ]
}

/// The views of a list of skills.
pub open spec fn skills_view(v: Seq<Skill>) -> Seq<(Seq<char>, Seq<char>, Seq<char>, Option<Seq<char>>)> {
    v.map_values(|s: Skill| skill_view(s))
}

fn builtin(id: &str, name: &str, description: &str) -> (s: Skill)
    ensures
        skill_view(s) == (id@, name@, description@, Some("built-in"@)),
{
    Skill {
        id: owned(id),
        name: owned(name),
        description: owned(description),
        source: Some(owned("built-in")),
    }
}

/// The built-in skills.
pub fn builtin_skills() -> (v: Vec<Skill>)
    ensures
        skills_view(v@) == builtin_skill_table(),
{
    let mut v = Vec::new();
    v.push(builtin("ask", "Ask", "Ask the codebase questions"));
    v.push(builtin("git-ai-search", "Git AI Search", "Search git history with AI"));
    v.push(builtin("prompt-analysis", "Prompt Analysis", "Analyze prompt patterns"));
    v.push(builtin("daves-vibe-guide", "Daves Vibe Guide", "Fork-Track system guide"));
    v.push(builtin("daves-vibe-check", "Daves Vibe Check", "Check upstream updates"));
    v.push(builtin("daves-vibe-sync", "Daves Vibe Sync", "Sync with upstream"));
    v.push(builtin("daves-vibe-review", "Daves Vibe Review", "Review upstream commits"));
    v.push(builtin("daves-vibe-mod", "Daves Vibe Mod", "Record mod decisions"));
    assert(skills_view(v@) =~= builtin_skill_table());
    v
}

/// The display name made from a skill file's stem: the first character upper-cased,
/// and every later `_` or `-` turned into a space.
pub open spec fn skill_name(stem: Seq<char>) -> Seq<char> {
    Seq::new(
        stem.len(),
        |i: int|
            if i == 0 {
                unicode_upper_first(stem[0])
            } else if stem[i] == '_' || stem[i] == '-' {
                ' '
            } else {
                stem[i]
            },
    )
}

/// The description of a skill file: the first line of its text, trimmed and without
/// leading `"# "` markers; `"Skill: <stem>"` when the file is empty or was not readable.
pub open spec fn skill_description(stem: Seq<char>, content: Option<Seq<char>>) -> Seq<char> {
    match content {
        Some(c) => match first_line(c) {
            Some(l) => strip_prefix_repeated(trim(l), "# "@),
            None => "Skill: "@ + stem,
        },
        None => "Skill: "@ + stem,
    }
}

/// Whether a file extension marks a skill file.
pub open spec fn is_skill_extension(ext: Seq<char>) -> bool {
    ext == "md"@ || ext == "txt"@
}

fn name_from_stem(stem: &str) -> (r: String)
    ensures
        r@ == skill_name(stem@),
{
    let v = chars_of(stem);
    let mut r = String::new();
    let mut i: usize = 0;
    while i < v.len()
        invariant
            v@ == stem@,
            i <= v.len(),
            r@ == skill_name(stem@).take(i as int),
        decreases v.len() - i,
    {
        let c = v[i];
        let d = if i == 0 {
            upper_first(c)
        } else if c == '_' || c == '-' {
            ' '
        } else {
            c
        };
        string_push(&mut r, d);
        assert(skill_name(stem@).take(i + 1) =~= skill_name(stem@).take(i as int).push(d));
        i = i + 1;
    }
    assert(skill_name(stem@).take(v.len() as int) =~= skill_name(stem@));
    r
}

/// The skill a file in the workspace's skills directory stands for, from the file's
/// stem, its extension and its text (`None` when it could not be read). Files that are
/// not `.md` or `.txt` are no skills.
pub fn local_skill(stem: &str, extension: &str, content: Option<String>) -> (r: Option<Skill>)
    ensures
        r is Some <==> is_skill_extension(extension@),
        r matches Some(s) ==> skill_view(s) == (
            "local:"@ + stem@,
            skill_name(stem@),
            skill_description(stem@, match content {
                Some(c) => Some(c@),
                None => None,
            }),
            Some("local"@),
        ),
{
    if !(str_eq(extension, "md") || str_eq(extension, "txt")) {
        return None;
    }
    proof {
        reveal_strlit("# ");
    }
    let description = match &content {
        Some(c) => match first_line_of(c.as_str()) {
            Some(line) => {
                let t = trim_str(line.as_str());
                trim_start_matches(t.as_str(), "# ")
            },
            None => concat("Skill: ", stem),
        },
        None => concat("Skill: ", stem),
    };
    Some(
        Skill {
            id: concat("local:", stem),
            name: name_from_stem(stem),
            description,
            source: Some(owned("local")),
        },
    )
}

/// The skills listed to the user: the built-in ones followed by the local ones.
pub fn get_skills(local_skills: Vec<Skill>) -> (v: Vec<Skill>)
    ensures
        skills_view(v@) == builtin_skill_table() + skills_view(local_skills@),
{
    let mut v = builtin_skills();
    let mut local = local_skills;
    let ghost b = v@;
    v.append(&mut local);
    assert(skills_view(v@) =~= builtin_skill_table() + skills_view(local_skills@));
    v
}

} // verus!
