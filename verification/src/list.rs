//! The tab-separated listing that the `list` command prints.
use vstd::prelude::*;
use crate::numbers::{decimal_spec, u16_to_string};
use crate::utils::{ssh_username_spec, warpgate_ssh_username};
use crate::warpgate::{is_ssh_spec, WarpgateTarget};

verus! {

/// One line of the listing: the target, the login that reaches it, the host and the port.
pub open spec fn target_row_spec(name: Seq<char>, user: Seq<char>, host: Seq<char>, port: u16) -> Seq<char> {
    name + "\t"@ + ssh_username_spec(user, name) + "\t"@ + host + "\t"@ + decimal_spec(port as nat)
        + "\n"@
}

/// The lines of the SSH targets among `ts`, in their order.
pub open spec fn rows_spec(ts: Seq<WarpgateTarget>, user: Seq<char>, host: Seq<char>, port: u16) -> Seq<char>
    decreases ts.len(),
{
    if ts.len() == 0 {
        Seq::empty()
    } else {
        rows_spec(ts.drop_last(), user, host, port) + if is_ssh_spec(ts.last()@) {
            target_row_spec(ts.last().name@, user, host, port)
        } else {
            Seq::empty()
        }
    }
}

pub open spec fn listing_header() -> Seq<char> {
    "target\tusername\thost\tport\n"@
}

/// The whole listing: a header line, then one line per SSH target.
pub open spec fn render_spec(ts: Seq<WarpgateTarget>, user: Seq<char>, host: Seq<char>, port: u16) -> Seq<char> {
    listing_header() + rows_spec(ts, user, host, port)
}

/// Fields go out verbatim: a tab cannot occur in a Warpgate target name, so nothing needs quoting.
pub fn render_targets(
    targets: &[WarpgateTarget],
    warpgate_username: &str,
    host: &str,
    port: u16,
) -> (output: String)
    ensures
        output@ == render_spec(targets@, warpgate_username@, host@, port),
{
    proof {
        reveal_strlit("target\tusername\thost\tport\n");
        reveal_strlit("\t");
        reveal_strlit("\n");
    }
    let port_text = u16_to_string(port);
    let mut output = String::from_str("target\tusername\thost\tport\n");
    let mut i: usize = 0;
    while i < targets.len()
        invariant
            i <= targets@.len(),
            port_text@ == decimal_spec(port as nat),
            output@ == listing_header() + rows_spec(targets@.subrange(0, i as int), warpgate_username@, host@, port),
        decreases targets@.len() - i,
    {
        let target = &targets[i];
        let ghost before = output@;
        let ghost prefix = targets@.subrange(0, i + 1);
        assert(prefix.drop_last() =~= targets@.subrange(0, i as int));
        assert(prefix.last() == *target);
        if target.is_ssh() {
            let username = warpgate_ssh_username(warpgate_username, target.name.as_str());
            output.append(target.name.as_str());
            output.append("\t");
            output.append(username.as_str());
            output.append("\t");
            output.append(host);
            output.append("\t");
            output.append(port_text.as_str());
            output.append("\n");
            assert(output@ =~= before + target_row_spec(target.name@, warpgate_username@, host@, port));
        } else {
            assert(output@ =~= before + Seq::<char>::empty());
        }
        i = i + 1;
    }
    assert(targets@.subrange(0, targets@.len() as int) =~= targets@);
    output
}

} // verus!
