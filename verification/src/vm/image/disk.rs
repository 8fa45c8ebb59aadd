//! Disk images on the host.

use vstd::prelude::*;

use crate::text;
use crate::vm::qemu::config::{CommandLine, DiskFormat};

verus! {

/// The bytes that a qcow2 image starts with.
pub open spec fn qcow2_magic() -> Seq<u8> {
    seq![0x51u8, 0x46u8, 0x49u8, 0xfbu8]
}

/// Whether the first bytes of a file are those of a qcow2 image.
pub fn has_qcow2_magic(head: &[u8]) -> (r: bool)
    ensures
        r == qcow2_magic().is_prefix_of(head@),
{
    if head.len() < 4 {
        return false;
    }
    let r = head[0] == 0x51 && head[1] == 0x46 && head[2] == 0x49 && head[3] == 0xfb;
    proof {
        let first = head@.subrange(0, 4);
        if r {
            assert(qcow2_magic() =~= first);
        } else if qcow2_magic().is_prefix_of(head@) {
            assert(first[0] == head@[0] && first[1] == head@[1] && first[2] == head@[2] && first[3]
                == head@[3]);
            assert(qcow2_magic()[0] == 0x51 && qcow2_magic()[1] == 0x46 && qcow2_magic()[2] == 0x49
                && qcow2_magic()[3] == 0xfb);
        }
    }
    r
}

/// The format of the image that starts with the given bytes.
pub fn detect_disk_format(head: &[u8]) -> (r: DiskFormat)
    ensures
        r == (if qcow2_magic().is_prefix_of(head@) {
            DiskFormat::Qcow2
        } else {
            DiskFormat::Raw
        }),
{
    if has_qcow2_magic(head) {
        DiskFormat::Qcow2
    } else {
        DiskFormat::Raw
    }
}

/// How a machine gets a disk of its own from an image.
#[derive(Debug)]
pub struct DiskCopy {
    /// Makes the disk as an overlay of the image. Where this fails, the image is copied instead.
    pub overlay: CommandLine,
    /// Gives the disk the size asked for, if one was.
    pub resize: Option<CommandLine>,
}

/// The arguments that make `dest` an overlay of `src`.
pub open spec fn overlay_args(src: Seq<char>, dest: Seq<char>) -> Seq<Seq<char>> {
    seq!["create"@].push("-f"@).push("qcow2"@).push("-F"@).push("qcow2"@).push("-b"@).push(
        src,
    ).push(dest)
}

/// The arguments that give an image a size.
pub open spec fn resize_args(path: Seq<char>, size: Seq<char>) -> Seq<Seq<char>> {
    seq!["resize"@].push(path).push(size)
}

/// The size that is asked for, if it is not blank.
pub open spec fn wanted_size(disk_size: Option<Seq<char>>) -> Option<Seq<char>> {
    match disk_size {
        Some(size) => if text::trimmed(size).len() == 0 {
            None
        } else {
            Some(text::trimmed(size))
        },
        None => None,
    }
}

/// The command that gives an image a size.
pub fn resize_disk_image(path: &str, size: &str) -> (r: CommandLine)
    ensures
        r.program@ == "qemu-img"@,
        text::views(r.args@) == resize_args(path@, size@),
{
    let mut args: Vec<String> = Vec::new();
    text::push_word(&mut args, "resize");
    assert(text::views(args@) =~= seq!["resize"@]);
    text::push_word(&mut args, path);
    text::push_word(&mut args, size);
    CommandLine { program: "qemu-img".to_owned(), args }
}

/// Plans how `dest` becomes a disk with the contents of the image `src` and the size asked for.
pub fn copy_disk_image(src: &str, dest: &str, disk_size: Option<&str>) -> (r: DiskCopy)
    ensures
        is_copy(r, src@, dest@, text::opt_str_view(disk_size)),
        r.overlay.program@ == "qemu-img"@,
        text::views(r.overlay.args@) == overlay_args(src@, dest@),
        match wanted_size(text::opt_str_view(disk_size)) {
            None => r.resize is None,
            Some(size) => r.resize matches Some(command) && command.program@ == "qemu-img"@
                && text::views(command.args@) == resize_args(dest@, size),
        },
{
    let mut args: Vec<String> = Vec::new();
    text::push_word(&mut args, "create");
    assert(text::views(args@) =~= seq!["create"@]);
    text::push_word(&mut args, "-f");
    text::push_word(&mut args, "qcow2");
    text::push_word(&mut args, "-F");
    text::push_word(&mut args, "qcow2");
    text::push_word(&mut args, "-b");
    text::push_word(&mut args, src);
    text::push_word(&mut args, dest);
    let resize = match disk_size {
        None => None,
        Some(size) => {
            let size = text::trim(size);
            if size.as_str().is_empty() {
                None
            } else {
                Some(resize_disk_image(dest, size.as_str()))
            }
        },
    };
    DiskCopy { overlay: CommandLine { program: "qemu-img".to_owned(), args }, resize }
}

/// Judges what `qemu-img resize` said.
pub fn resize_outcome(success: bool, stderr: &str) -> (r: Result<(), String>)
    ensures
        r is Ok <==> success,
        r matches Err(message) ==> message@ == "qemu-img resize failed: "@ + text::trimmed(stderr@),
{
    if success {
        Ok(())
    } else {
        let t = text::trim(stderr);
        Err(text::cat2("qemu-img resize failed: ", t.as_str()))
    }
}

/// A machine's disk is an overlay of the image: the image backs it and is not written to, and the
/// file that is made, and given its size, is the machine's own.
pub proof fn law_disk_is_an_overlay_of_its_image(src: Seq<char>, dest: Seq<char>, size: Seq<char>)
    ensures
        overlay_args(src, dest)[0] == "create"@,
        text::gives(overlay_args(src, dest), "-f"@, "qcow2"@),
        text::gives(overlay_args(src, dest), "-F"@, "qcow2"@),
        text::gives(overlay_args(src, dest), "-b"@, src),
        overlay_args(src, dest).last() == dest,
        overlay_args(src, dest).len() == 8,
        resize_args(dest, size) == seq!["resize"@, dest, size],
{
    let args = overlay_args(src, dest);
    text::lemma_gives(args, 1);
    text::lemma_gives(args, 3);
    text::lemma_gives(args, 5);
    assert(resize_args(dest, size) =~= seq!["resize"@, dest, size]);
}

/// A size that is asked for is used without the blanks around it, and a blank one is none.
pub proof fn law_blank_size_is_none(size: Option<Seq<char>>)
    ensures
        wanted_size(size) is Some <==> size is Some && text::trimmed(size->0).len() > 0,
        wanted_size(size) matches Some(wanted) ==> wanted == text::trimmed(size->0),
{
}

/// A file is a qcow2 image exactly if it starts with `QFI` and the byte 251.
pub proof fn law_magic_of_an_image(head: Seq<u8>)
    ensures
        qcow2_magic().is_prefix_of(head) <==> head.len() >= 4 && head[0] == 'Q' as u8 && head[1]
            == 'F' as u8 && head[2] == 'I' as u8 && head[3] == 251,
{
    let magic = qcow2_magic();
    assert('Q' as u8 == 0x51 && 'F' as u8 == 0x46 && 'I' as u8 == 0x49);
    assert(magic[0] == 0x51 && magic[1] == 0x46 && magic[2] == 0x49 && magic[3] == 0xfb);
    if head.len() >= 4 {
        let first = head.subrange(0, 4);
        assert(first[0] == head[0] && first[1] == head[1] && first[2] == head[2] && first[3]
            == head[3]);
        if head[0] == 0x51 && head[1] == 0x46 && head[2] == 0x49 && head[3] == 251 {
            assert(magic =~= first);
        }
    }
}

/// Whether `copy` makes `dest` a disk with the contents of `src` and the size asked for.
pub open spec fn is_copy(
    copy: DiskCopy,
    src: Seq<char>,
    dest: Seq<char>,
    size: Option<Seq<char>>,
) -> bool {
    &&& copy.overlay.program@ == "qemu-img"@
    &&& text::views(copy.overlay.args@) == overlay_args(src, dest)
    &&& match wanted_size(size) {
        None => copy.resize is None,
        Some(wanted) => copy.resize matches Some(command) && command.program@ == "qemu-img"@
            && text::views(command.args@) == resize_args(dest, wanted),
    }
}

/// The disk that is made is the disk that is given the size, and it is given one exactly if one is
/// asked for.
pub proof fn law_disk_gets_the_size_asked_for(
    copy: DiskCopy,
    src: Seq<char>,
    dest: Seq<char>,
    size: Option<Seq<char>>,
)
    requires
        is_copy(copy, src, dest, size),
    ensures
        copy.overlay.program@ == "qemu-img"@,
        text::views(copy.overlay.args@).last() == dest,
        text::gives(text::views(copy.overlay.args@), "-b"@, src),
        copy.resize is Some <==> size is Some && text::trimmed(size->0).len() > 0,
        copy.resize matches Some(command) ==> command.program@ == "qemu-img"@ && text::views(
            command.args@,
        ) == seq!["resize"@, dest, text::trimmed(size->0)],
{
    law_disk_is_an_overlay_of_its_image(src, dest, text::trimmed(size->0));
}

} // verus!
