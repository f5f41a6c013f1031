//! The bulk updater's decisions: which `osc` commands check a package out
//! or bring it up to date, which commit and submit it, and how the services
//! of a package are run in a jail.
use vstd::prelude::*;
use vstd::string::*;
use crate::commands::{push_text, texts};
use crate::text::owned;

verus! {

/// The argument lists of a sequence of commands.
pub open spec fn command_views(v: Seq<Vec<String>>) -> Seq<Seq<Seq<char>>> {
    v.map_values(|c: Vec<String>| texts(c@))
}

fn command(a: &str, b: &str) -> (r: Vec<String>)
    ensures
        texts(r@) == seq![a@, b@],
{
    let mut r: Vec<String> = Vec::new();
    push_text(&mut r, a);
    push_text(&mut r, b);
    assert(texts(r@) =~= seq![a@, b@]);
    r
}

fn command_with_message(sub: &str, message: &str) -> (r: Vec<String>)
    ensures
        texts(r@) == seq![sub@, "-m"@, message@],
{
    let mut r: Vec<String> = Vec::new();
    push_text(&mut r, sub);
    push_text(&mut r, "-m");
    push_text(&mut r, message);
    assert(texts(r@) =~= seq![sub@, "-m"@, message@]);
    r
}

/// Where a package is checked out, and the `osc` commands to run there.
#[derive(Clone, Debug)]
pub struct OscPlan {
    pub package_path: String,
    pub commands: Vec<Vec<String>>,
}

/// Plans the checkout of `<basepath>:<package_name>`: a package already
/// there is reverted, cleaned and updated; a new one is branched and checked
/// out.
pub fn osc_checkout_or_update(package_name: &str, basepath: &str, checked_out: bool) -> (r: OscPlan)
    ensures
        r.package_path@ == basepath@ + ":"@ + package_name@,
        command_views(r.commands@) == if checked_out {
            seq![seq!["revert"@, "."@], seq!["clean"@, "."@], seq!["update"@, "."@]]
        } else {
            seq![seq!["bco"@, "."@]]
        },
{
    let mut path = owned(basepath);
    path.append(":");
    path.append(package_name);
    let mut commands: Vec<Vec<String>> = Vec::new();
    if checked_out {
        commands.push(command("revert", "."));
        commands.push(command("clean", "."));
        commands.push(command("update", "."));
        assert(command_views(commands@) =~= seq![
            seq!["revert"@, "."@],
            seq!["clean"@, "."@],
            seq!["update"@, "."@],
        ]);
    } else {
        commands.push(command("bco", "."));
        assert(command_views(commands@) =~= seq![seq!["bco"@, "."@]]);
    }
    OscPlan { package_path: path, commands }
}

/// Plans what follows a successful update: with `yolo`, record the change
/// and commit it, and with `findout` as well, submit it; without `yolo`,
/// nothing is run and the operator does it by hand.
pub fn attempt_osc_operation_with_optional_submit(message: &str, yolo: bool, findout: bool) -> (r: Vec<
    Vec<String>,
>)
    ensures
        command_views(r@) == if yolo {
            seq![seq!["vc"@, "-m"@, message@], seq!["ci"@, "-m"@, message@]] + if findout {
                seq![seq!["sr"@, "-m"@, message@]]
            } else {
                seq![]
            }
        } else {
            seq![]
        },
{
    let mut r: Vec<Vec<String>> = Vec::new();
    if yolo {
        r.push(command_with_message("vc", message));
        r.push(command_with_message("ci", message));
        if findout {
            r.push(command_with_message("sr", message));
        }
    }
    assert(command_views(r@) =~= if yolo {
        seq![seq!["vc"@, "-m"@, message@], seq!["ci"@, "-m"@, message@]] + if findout {
            seq![seq!["sr"@, "-m"@, message@]]
        } else {
            seq![]
        }
    } else {
        seq![]
    });
    r
}

/// The `nsjail` arguments that run `osc service ra` for the package at
/// `package_dir`, with the working directory `cwd` mounted at itself.
pub fn services_command_args(package_dir: &str, cwd: &str) -> (r: Vec<String>)
    ensures
        texts(r@) == seq![
            "--really_quiet"@,
            "--config"@,
            "scan.cfg"@,
            "--cwd"@,
            package_dir@,
            "--bindmount"@,
            cwd@ + ":"@ + cwd@,
            "/usr/bin/osc"@,
            "service"@,
            "ra"@,
        ],
{
    let mut bind = owned(cwd);
    bind.append(":");
    bind.append(cwd);
    let mut r: Vec<String> = Vec::new();
    push_text(&mut r, "--really_quiet");
    push_text(&mut r, "--config");
    push_text(&mut r, "scan.cfg");
    push_text(&mut r, "--cwd");
    push_text(&mut r, package_dir);
    push_text(&mut r, "--bindmount");
    push_text(&mut r, bind.as_str());
    push_text(&mut r, "/usr/bin/osc");
    push_text(&mut r, "service");
    push_text(&mut r, "ra");
    assert(texts(r@) =~= seq![
        "--really_quiet"@,
        "--config"@,
        "scan.cfg"@,
        "--cwd"@,
        package_dir@,
        "--bindmount"@,
        cwd@ + ":"@ + cwd@,
        "/usr/bin/osc"@,
        "service"@,
        "ra"@,
    ]);
    r
}

} // verus!
