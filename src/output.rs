use vstd::prelude::*;
use vstd::string::*;

verus! {

/// What a run reports.
#[derive(Debug, Clone)]
pub struct ActionOutput {
    pub released: bool,
    pub version: Option<String>,
    pub tag: Option<String>,
    pub release_url: Option<String>,
}

pub open spec fn or_empty(o: Option<String>) -> Seq<char> {
    match o {
        Some(s) => s@,
        None => Seq::empty(),
    }
}

pub open spec fn or_na(o: Option<String>) -> Seq<char> {
    match o {
        Some(s) => s@,
        None => "N/A"@,
    }
}

pub open spec fn bool_text(b: bool) -> Seq<char> {
    if b {
        "true"@
    } else {
        "false"@
    }
}

/// The report as `key=value` lines.
pub open spec fn key_value_text(o: ActionOutput) -> Seq<char> {
    "released="@ + bool_text(o.released) + "\nversion="@ + or_empty(o.version) + "\ntag="@
        + or_empty(o.tag) + "\nrelease-url="@ + or_empty(o.release_url)
}

/// The report as a human-readable summary, for a pull request preview or for a
/// release run.
pub open spec fn summary_text(o: ActionOutput, is_pr: bool) -> Seq<char> {
    if is_pr {
        if o.released {
            "🔍 **Release Preview (Dry Run)**\n\n✅ **This PR would create a new release:**\n- **Proposed Version:** "@
                + or_na(o.version) + "\n- **Proposed Tag:** "@ + or_na(o.tag) + "\n"@
        } else {
            "🔍 **Release Preview (Dry Run)**\n\nℹ️ **No release would be created** - no qualifying commits found\n"@
        }
    } else {
        if o.released {
            "🎉 **Release Created Successfully!**\n\n- **Version:** "@ + or_na(o.version)
                + "\n- **Tag:** "@ + or_na(o.tag) + "\n- **Release URL:** "@ + or_na(o.release_url)
                + "\n"@
        } else {
            "ℹ️ **No release created** - no qualifying commits found\n"@
        }
    }
}

fn push_opt(r: &mut String, o: &Option<String>, fallback: &str)
    ensures
        final(r)@ == old(r)@ + (match *o {
            Some(s) => s@,
            None => fallback@,
        }),
{
    match o {
        Some(s) => r.append(s.as_str()),
        None => r.append(fallback),
    }
}

impl ActionOutput {
    /// The report as `key=value` lines, an absent value left empty.
    pub fn key_values(&self) -> (r: String)
        ensures
            r@ == key_value_text(*self),
    {
        proof {
            reveal_strlit("");
        }
        let mut r = String::from_str("released=");
        r.append(if self.released { "true" } else { "false" });
        r.append("\nversion=");
        push_opt(&mut r, &self.version, "");
        r.append("\ntag=");
        push_opt(&mut r, &self.tag, "");
        r.append("\nrelease-url=");
        push_opt(&mut r, &self.release_url, "");
        assert(r@ =~= key_value_text(*self));
        r
    }

    /// The summary of the run, an absent value shown as `N/A`.
    pub fn summary(&self, is_pr: bool) -> (r: String)
        ensures
            r@ == summary_text(*self, is_pr),
    {
        if is_pr {
            if self.released {
                let mut r = String::from_str(
                    "🔍 **Release Preview (Dry Run)**\n\n✅ **This PR would create a new release:**\n- **Proposed Version:** ",
                );
                push_opt(&mut r, &self.version, "N/A");
                r.append("\n- **Proposed Tag:** ");
                push_opt(&mut r, &self.tag, "N/A");
                r.append("\n");
                r
            } else {
                String::from_str(
                    "🔍 **Release Preview (Dry Run)**\n\nℹ️ **No release would be created** - no qualifying commits found\n",
                )
            }
        } else {
            if self.released {
                let mut r = String::from_str("🎉 **Release Created Successfully!**\n\n- **Version:** ");
                push_opt(&mut r, &self.version, "N/A");
                r.append("\n- **Tag:** ");
                push_opt(&mut r, &self.tag, "N/A");
                r.append("\n- **Release URL:** ");
                push_opt(&mut r, &self.release_url, "N/A");
                r.append("\n");
                r
            } else {
                String::from_str("ℹ️ **No release created** - no qualifying commits found\n")
            }
        }
    }
}

} // verus!
