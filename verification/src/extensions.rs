//! The extension-recommendations document: always recommends the language
//! extension, and additionally the native-debugging extension when any target
//! of any package is an example or a binary.
use vstd::prelude::*;
use vstd::string::StringExecFns;

use crate::guard::sentinel;
use crate::jsonstr::json_string_of;
use crate::jsonstr::json_quote;
use crate::model::Workspace;
use crate::model::has_launchable_target;
use crate::model::spec_has_launchable;

verus! {

/// One entry of the recommendation list, as written into the document.
pub open spec fn spec_ext_line(id: Seq<char>) -> Seq<char> {
    "        "@ + json_string_of(id) + ",\n"@
}

/// The whole document: the sentinel line, then a JSON object holding the
/// recommendation list.
pub open spec fn spec_extensions_doc(ws: Workspace) -> Seq<char> {
    sentinel() + "\n"@ + "{\n"@ + "    \"recommendations\": [\n"@ + spec_ext_line(
        "rust-lang.rust-analyzer"@,
    ) + (if spec_has_launchable(ws) {
        spec_ext_line("ms-vscode.cpptools"@)
    } else {
        Seq::<char>::empty()
    }) + "    ]\n"@ + "}\n"@
}

/// Appends one recommendation line.
fn write_ext(o: &mut String, extension: &str)
    ensures
        final(o)@ == old(o)@ + spec_ext_line(extension@),
{
    o.append("        ");
    let q = json_quote(extension);
    o.append(q.as_str());
    o.append(",\n");
}

/// Renders the extension-recommendations document for the workspace.
pub fn create_vscode_extensions_json(ws: &Workspace) -> (r: String)
    ensures
        r@ == spec_extensions_doc(*ws),
{
    let mut o = String::new();
    o.append(crate::guard::AUTOGEN_JSON);
    o.append("\n");
    o.append("{\n");
    o.append("    \"recommendations\": [\n");
    write_ext(&mut o, "rust-lang.rust-analyzer");
    if has_launchable_target(ws) {
        write_ext(&mut o, "ms-vscode.cpptools");
    }
    o.append("    ]\n");
    o.append("}\n");
    proof {
        assert(o@ =~= spec_extensions_doc(*ws));
    }
    o
}

} // verus!
