use vstd::prelude::*;
use vstd::string::StringExecFns;

verus! {

/// The launcher instance configuration carried in the bootstrap bundle:
/// it points the pre-launch installer at the pack metadata route under
/// the configured URL prefix. The bundle archive itself is an external
/// format encoder and is assembled at the edge; only this text is
/// derived here.
pub fn instance_cfg_contents(url_prefix: &str, pack_name: &str) -> (r: String)
    ensures
        r@
            == "InstanceType=OneSix\nOverrideCommands=true\nPreLaunchCommand=\"$INST_JAVA\" -jar packwiz-installer-bootstrap.jar "@
            + url_prefix@ + "/packwiz/pack.toml\nname=$"@ + pack_name@ + "\n"@,
{
    let mut out = String::new();
    out.append(
        "InstanceType=OneSix\nOverrideCommands=true\nPreLaunchCommand=\"$INST_JAVA\" -jar packwiz-installer-bootstrap.jar ",
    );
    out.append(url_prefix);
    out.append("/packwiz/pack.toml\nname=$");
    out.append(pack_name);
    out.append("\n");
    out
}

} // verus!
