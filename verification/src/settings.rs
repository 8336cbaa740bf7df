//! The editor-settings document: excludes the build-output subdirectories
//! from editor file views, since they clutter up search results.
use vstd::prelude::*;
use vstd::string::StringExecFns;

use crate::guard::sentinel;
use crate::jsonstr::json_string_of;
use crate::jsonstr::json_quote;

verus! {

/// The whole document: the sentinel line, then a JSON object mapping each
/// excluded glob to true.
pub open spec fn spec_settings_doc() -> Seq<char> {
    sentinel() + "\n"@ + "{\n"@ + "    \"files.exclude\": {\n"@ + "        "@ + json_string_of(
        "target/*/*/*"@,
    ) + ": true,\n"@ + "    }\n"@ + "}\n"@
}

/// Renders the editor-settings document. Its content does not depend on the
/// workspace's packages.
pub fn create_vscode_settings_json() -> (r: String)
    ensures
        r@ == spec_settings_doc(),
{
    let mut o = String::new();
    o.append(crate::guard::AUTOGEN_JSON);
    o.append("\n");
    o.append("{\n");
    o.append("    \"files.exclude\": {\n");
    o.append("        ");
    let q = json_quote("target/*/*/*");
    o.append(q.as_str());
    o.append(": true,\n");
    o.append("    }\n");
    o.append("}\n");
    proof {
        assert(o@ =~= spec_settings_doc());
    }
    o
}

} // verus!
