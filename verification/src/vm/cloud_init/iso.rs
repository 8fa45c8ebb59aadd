//! The image that carries the seed documents into a machine.

use vstd::prelude::*;

use crate::text;
use crate::vm::qemu::config::CommandLine;

verus! {

/// Makes seed images with the tool at the given path.
#[derive(Debug)]
pub struct IsoCreator {
    pub iso_tool_path: String,
}

/// The message for a host without any tool.
pub open spec fn no_tool() -> Seq<char> {
    "Neither genisoimage, xorriso, nor mkisofs found. Please install one of these packages: genisoimage, xorriso, or cdrtools"@
}

/// What `which` says about a command: the first line that it printed, if it found the command.
#[derive(Debug)]
pub struct WhichOutput {
    pub success: bool,
    pub stdout: String,
}

/// The name of the tool at a path.
pub open spec fn tool(path: Seq<char>) -> Seq<char> {
    if text::occurs_in("xorriso"@, path) {
        "xorriso"@
    } else if text::occurs_in("mkisofs"@, path) {
        "mkisofs"@
    } else {
        "genisoimage"@
    }
}

/// The arguments that make a seed image out of the two documents.
pub open spec fn iso_args(
    tool: Seq<char>,
    metadata: Seq<char>,
    userdata: Seq<char>,
    output: Seq<char>,
) -> Seq<Seq<char>> {
    (if tool == "xorriso"@ {
        seq!["-as"@, "mkisofs"@]
    } else {
        seq![]
    }) + seq!["-output"@, output] + seq!["-volid"@, "cidata"@] + seq!["-joliet"@, "-rock"@] + seq![
        metadata,
        userdata,
    ]
}

impl IsoCreator {
    /// The path that `which` found, if it found one.
    pub fn which(command: &str, output: &WhichOutput) -> (r: Result<String, String>)
        ensures
            match r {
                Ok(path) => output.success && path@ == text::trimmed(output.stdout@) && path@.len()
                    > 0,
                Err(message) => !(output.success && text::trimmed(output.stdout@).len() > 0)
                    && message@ == command@ + " not found in PATH"@,
            },
    {
        if output.success {
            let path = text::trim(output.stdout.as_str());
            if !path.as_str().is_empty() {
                return Ok(path);
            }
        }
        Err(text::cat2(command, " not found in PATH"))
    }

    /// Picks the tool: `genisoimage`, else `xorriso`, else `mkisofs`.
    pub fn find_genisoimage(
        genisoimage: Option<String>,
        xorriso: Option<String>,
        mkisofs: Option<String>,
    ) -> (r: Result<String, String>)
        ensures
            r matches Ok(path) ==> is_tool(path, genisoimage, xorriso, mkisofs),
            match r {
                Ok(path) => Some(path) == (if genisoimage is Some {
                    genisoimage
                } else if xorriso is Some {
                    xorriso
                } else {
                    mkisofs
                }),
                Err(message) => genisoimage is None && xorriso is None && mkisofs is None
                    && message@ == no_tool(),
            },
    {
        match genisoimage {
            Some(path) => Ok(path),
            None => match xorriso {
                Some(path) => Ok(path),
                None => match mkisofs {
                    Some(path) => Ok(path),
                    None => Err(
                        "Neither genisoimage, xorriso, nor mkisofs found. Please install one of these packages: genisoimage, xorriso, or cdrtools".to_owned(),
                    ),
                },
            },
        }
    }

    /// Sets up image making with the tools that the host has.
    pub fn new(genisoimage: Option<String>, xorriso: Option<String>, mkisofs: Option<String>) -> (r:
        Result<IsoCreator, String>)
        ensures
            r matches Ok(creator) ==> is_tool(
                creator.iso_tool_path,
                genisoimage,
                xorriso,
                mkisofs,
            ),
            match r {
                Ok(creator) => Some(creator.iso_tool_path) == (if genisoimage is Some {
                    genisoimage
                } else if xorriso is Some {
                    xorriso
                } else {
                    mkisofs
                }),
                Err(message) => genisoimage is None && xorriso is None && mkisofs is None
                    && message@ == no_tool(),
            },
    {
        match IsoCreator::find_genisoimage(genisoimage, xorriso, mkisofs) {
            Ok(iso_tool_path) => Ok(IsoCreator { iso_tool_path }),
            Err(message) => Err(message),
        }
    }

    /// The name of the tool in use.
    pub fn tool_name(&self) -> (r: &str)
        ensures
            r@ == tool(self.iso_tool_path@),
    {
        if text::contains(self.iso_tool_path.as_str(), "xorriso") {
            "xorriso"
        } else if text::contains(self.iso_tool_path.as_str(), "mkisofs") {
            "mkisofs"
        } else {
            "genisoimage"
        }
    }

    /// The command that makes a seed image out of the two documents.
    pub fn create_nocloud_iso(&self, metadata_path: &str, userdata_path: &str, output_iso: &str) -> (r:
        CommandLine)
        ensures
            r.program@ == self.iso_tool_path@,
            text::views(r.args@) == iso_args(
                tool(self.iso_tool_path@),
                metadata_path@,
                userdata_path@,
                output_iso@,
            ),
    {
        let mut args: Vec<String> = Vec::new();
        assert(text::views(args@) =~= seq![]);
        if text::same(self.tool_name(), "xorriso") {
            text::push_pair(&mut args, "-as", "mkisofs");
            assert(text::views(args@) =~= seq!["-as"@, "mkisofs"@]);
        }
        text::push_pair(&mut args, "-output", output_iso);
        text::push_pair(&mut args, "-volid", "cidata");
        text::push_pair(&mut args, "-joliet", "-rock");
        text::push_pair(&mut args, metadata_path, userdata_path);
        CommandLine { program: self.iso_tool_path.clone(), args }
    }
}

/// A seed image is labelled as cloud-init expects it, written to the file that is asked for, and
/// holds the two documents, whichever tool makes it.
pub proof fn law_seed_image_holds_the_documents(
    path: Seq<char>,
    metadata: Seq<char>,
    userdata: Seq<char>,
    output: Seq<char>,
)
    ensures
        ({
            let args = iso_args(tool(path), metadata, userdata, output);
            let n = args.len() as int;
            &&& text::gives(args, "-output"@, output)
            &&& text::gives(args, "-volid"@, "cidata"@)
            &&& args[n - 4] == "-joliet"@ && args[n - 3] == "-rock"@
            &&& args[n - 2] == metadata && args[n - 1] == userdata
            &&& text::occurs_in("xorriso"@, path) <==> n == 10
            &&& !text::occurs_in("xorriso"@, path) <==> n == 8
            &&& n == 10 ==> args[0] == "-as"@ && args[1] == "mkisofs"@
        }),
{
    reveal_strlit("xorriso");
    reveal_strlit("mkisofs");
    reveal_strlit("genisoimage");
    assert("mkisofs"@[0] != "xorriso"@[0]);
    assert("genisoimage"@[0] != "xorriso"@[0]);
    let args = iso_args(tool(path), metadata, userdata, output);
    let k: int = if text::occurs_in("xorriso"@, path) {
        2
    } else {
        0
    };
    text::lemma_gives(args, k);
    text::lemma_gives(args, k + 2);
}

/// The message for a host without any of the tools names each of them.
pub proof fn law_tools_are_named()
    ensures
        text::occurs_in("genisoimage"@, no_tool()),
        text::occurs_in("xorriso"@, no_tool()),
        text::occurs_in("mkisofs"@, no_tool()),
{
    reveal_strlit(
        "Neither genisoimage, xorriso, nor mkisofs found. Please install one of these packages: genisoimage, xorriso, or cdrtools",
    );
    reveal_strlit("genisoimage");
    reveal_strlit("xorriso");
    reveal_strlit("mkisofs");
    let message = no_tool();
    assert(message.subrange(8, 19) =~= "genisoimage"@);
    assert(text::occurs_at("genisoimage"@, message, 8));
    assert(message.subrange(21, 28) =~= "xorriso"@);
    assert(text::occurs_at("xorriso"@, message, 21));
    assert(message.subrange(34, 41) =~= "mkisofs"@);
    assert(text::occurs_at("mkisofs"@, message, 34));
}

/// Whether `path` is the tool that is picked.
pub open spec fn is_tool(
    path: String,
    genisoimage: Option<String>,
    xorriso: Option<String>,
    mkisofs: Option<String>,
) -> bool {
    Some(path) == (if genisoimage is Some {
        genisoimage
    } else if xorriso is Some {
        xorriso
    } else {
        mkisofs
    })
}

/// Of the tools that the host has, `genisoimage` comes before `xorriso`, and that before
/// `mkisofs`.
pub proof fn law_order_of_the_tools(
    path: String,
    genisoimage: Option<String>,
    xorriso: Option<String>,
    mkisofs: Option<String>,
)
    requires
        is_tool(path, genisoimage, xorriso, mkisofs),
    ensures
        genisoimage is Some ==> path == genisoimage->0,
        genisoimage is None && xorriso is Some ==> path == xorriso->0,
        genisoimage is None && xorriso is None ==> mkisofs is Some && path == mkisofs->0,
{
}

} // verus!
