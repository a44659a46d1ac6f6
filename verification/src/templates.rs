//! The boot-loader configuration renderer.
//!
//! Two fixed output shapes — a GRUB configuration and a Syslinux/isolinux
//! configuration — are rendered from one context: product and title text,
//! the filesystem label, the boot-menu timeout, a fallback kernel-argument
//! string for basic-graphics mode, a memtest-available flag, and an ordered
//! sequence of boot-menu stanzas. Rendering is pure and total: the output is
//! exactly the character sequence given by [`spec_grub_text`] and
//! [`spec_syslinux_text`], so the same context always renders the same
//! bytes.

use crate::strutil;
use vstd::prelude::*;
use vstd::string::StringExecFns;

verus! {

/// One boot-menu entry: an internal template key, the user-visible menu
/// text, and the kernel-argument string of the entry.
#[derive(Debug, Clone)]
pub struct Stanza {
    pub name: String,
    pub label: String,
    pub kargs: String,
}

/// Which of the two fixed outputs to render.
#[derive(Debug, Clone, Copy, PartialEq, Eq, Structural)]
pub enum TemplateType {
    Grub,
    Syslinux,
}

/// The rendering context; stanzas are kept in menu order.
#[derive(Debug, Clone)]
pub struct Template {
    pub product: String,
    pub title: String,
    pub fslabel: String,
    pub timeout: u32,
    pub stanzas: Vec<Stanza>,
    pub vesa_kargs: String,
    pub memtest: bool,
}

/// The GRUB menu entry of one stanza.
pub open spec fn spec_grub_stanza(s: Stanza) -> Seq<char> {
    "menuentry '"@ + s.label@ + "' {\n"@ + "\tlinux /images/vmlinuz "@ + s.kargs@ + "\n"@
        + "\tinitrd /images/initramfs.img\n}\n"@
}

/// The GRUB menu entries of a stanza sequence, in order.
pub open spec fn spec_grub_stanzas(ss: Seq<Stanza>) -> Seq<char>
    decreases ss.len(),
{
    if ss.len() == 0 {
        Seq::empty()
    } else {
        spec_grub_stanza(ss[0]) + spec_grub_stanzas(ss.drop_first())
    }
}

/// The full GRUB configuration text of a context.
pub open spec fn spec_grub_text(t: &Template) -> Seq<char> {
    "# "@ + t.product@ + "\nset default=\"0\"\nset timeout="@ + strutil::spec_dec(t.timeout as int)
        + "\nsearch --no-floppy --set=root -l '"@ + t.fslabel@ + "'\n\n"@ + spec_grub_stanzas(
        t.stanzas@,
    ) + "menuentry '"@ + t.title@ + " in basic graphics mode' {\n\tlinux /images/vmlinuz "@
        + t.vesa_kargs@ + " nomodeset\n\tinitrd /images/initramfs.img\n}\n"@ + (if t.memtest {
        "menuentry 'Run a memory test' {\n\tlinux /images/memtest\n}\n"@
    } else {
        Seq::<char>::empty()
    })
}

/// The Syslinux entry of one stanza.
pub open spec fn spec_syslinux_stanza(s: Stanza) -> Seq<char> {
    "label "@ + s.name@ + "\n  menu label "@ + s.label@
        + "\n  kernel /images/vmlinuz\n  append initrd=/images/initramfs.img "@ + s.kargs@ + "\n"@
}

/// The Syslinux entries of a stanza sequence, in order.
pub open spec fn spec_syslinux_stanzas(ss: Seq<Stanza>) -> Seq<char>
    decreases ss.len(),
{
    if ss.len() == 0 {
        Seq::empty()
    } else {
        spec_syslinux_stanza(ss[0]) + spec_syslinux_stanzas(ss.drop_first())
    }
}

/// The full Syslinux configuration text of a context.
pub open spec fn spec_syslinux_text(t: &Template) -> Seq<char> {
    "say Booting "@ + t.product@ + "\nui vesamenu.c32\nmenu title "@ + t.title@ + "\ntimeout "@
        + strutil::spec_dec(t.timeout as int) + "\n\n"@ + spec_syslinux_stanzas(t.stanzas@)
        + "label basic\n  menu label "@ + t.title@
        + " in basic graphics mode\n  kernel /images/vmlinuz\n  append initrd=/images/initramfs.img "@
        + t.vesa_kargs@ + " nomodeset\n"@ + (if t.memtest {
        "label memtest\n  menu label Run a memory test\n  kernel /images/memtest\n"@
    } else {
        Seq::<char>::empty()
    })
}

impl Template {
    /// A context with the given text fields, no stanzas, an empty
    /// basic-graphics argument string, and memtest disabled.
    pub fn new(product: &str, title: &str, fslabel: &str, timeout: u32) -> (r: Template)
        ensures
            r.product@ == product@,
            r.title@ == title@,
            r.fslabel@ == fslabel@,
            r.timeout == timeout,
            r.stanzas@.len() == 0,
            r.vesa_kargs@ == Seq::<char>::empty(),
            r.memtest == false,
    {
        Template {
            product: product.to_owned(),
            title: title.to_owned(),
            fslabel: fslabel.to_owned(),
            timeout,
            stanzas: Vec::new(),
            vesa_kargs: String::new(),
            memtest: false,
        }
    }

    /// Appends one boot-menu stanza; menu order is insertion order.
    pub fn add_stanza(&mut self, name: &str, label: &str, kargs: &str)
        ensures
            final(self).stanzas@.len() == old(self).stanzas@.len() + 1,
            forall|i: int|
                0 <= i < old(self).stanzas@.len() ==> final(self).stanzas@[i] == old(
                    self,
                ).stanzas@[i],
            final(self).stanzas@.last().name@ == name@,
            final(self).stanzas@.last().label@ == label@,
            final(self).stanzas@.last().kargs@ == kargs@,
            final(self).product == old(self).product,
            final(self).title == old(self).title,
            final(self).fslabel == old(self).fslabel,
            final(self).timeout == old(self).timeout,
            final(self).vesa_kargs == old(self).vesa_kargs,
            final(self).memtest == old(self).memtest,
    {
        let stanza = Stanza {
            name: name.to_owned(),
            label: label.to_owned(),
            kargs: kargs.to_owned(),
        };
        self.stanzas.push(stanza);
    }

    /// Sets the kernel-argument string of the basic-graphics fallback
    /// entry.
    pub fn set_vesa_kargs(&mut self, kargs: &str)
        ensures
            final(self).vesa_kargs@ == kargs@,
            final(self).product == old(self).product,
            final(self).title == old(self).title,
            final(self).fslabel == old(self).fslabel,
            final(self).timeout == old(self).timeout,
            final(self).stanzas == old(self).stanzas,
            final(self).memtest == old(self).memtest,
    {
        self.vesa_kargs = kargs.to_owned();
    }

    /// Records whether a memtest image is available, which adds the memory
    /// test entry to both outputs.
    pub fn enable_memtest(&mut self, enabled: bool)
        ensures
            final(self).memtest == enabled,
            final(self).product == old(self).product,
            final(self).title == old(self).title,
            final(self).fslabel == old(self).fslabel,
            final(self).timeout == old(self).timeout,
            final(self).stanzas == old(self).stanzas,
            final(self).vesa_kargs == old(self).vesa_kargs,
    {
        self.memtest = enabled;
    }

    /// Renders the chosen output exactly as its text specification gives
    /// it.
    pub fn render(&self, tt: TemplateType) -> (r: String)
        ensures
            tt == TemplateType::Grub ==> r@ == spec_grub_text(self),
            tt == TemplateType::Syslinux ==> r@ == spec_syslinux_text(self),
    {
        match tt {
            TemplateType::Grub => self.render_grub(),
            TemplateType::Syslinux => self.render_syslinux(),
        }
    }

    fn render_grub(&self) -> (r: String)
        ensures
            r@ == spec_grub_text(self),
    {
        let mut out = "# ".to_owned();
        out.append(self.product.as_str());
        out.append("\nset default=\"0\"\nset timeout=");
        let timeout_text = strutil::u32_to_string(self.timeout);
        out.append(timeout_text.as_str());
        out.append("\nsearch --no-floppy --set=root -l '");
        out.append(self.fslabel.as_str());
        out.append("'\n\n");
        let stanzas_text = grub_stanzas_from(&self.stanzas, 0);
        out.append(stanzas_text.as_str());
        out.append("menuentry '");
        out.append(self.title.as_str());
        out.append(" in basic graphics mode' {\n\tlinux /images/vmlinuz ");
        out.append(self.vesa_kargs.as_str());
        out.append(" nomodeset\n\tinitrd /images/initramfs.img\n}\n");
        if self.memtest {
            out.append("menuentry 'Run a memory test' {\n\tlinux /images/memtest\n}\n");
        }
        proof {
            assert(self.stanzas@.skip(0) =~= self.stanzas@);
        }
        out
    }

    fn render_syslinux(&self) -> (r: String)
        ensures
            r@ == spec_syslinux_text(self),
    {
        let mut out = "say Booting ".to_owned();
        out.append(self.product.as_str());
        out.append("\nui vesamenu.c32\nmenu title ");
        out.append(self.title.as_str());
        out.append("\ntimeout ");
        let timeout_text = strutil::u32_to_string(self.timeout);
        out.append(timeout_text.as_str());
        out.append("\n\n");
        let stanzas_text = syslinux_stanzas_from(&self.stanzas, 0);
        out.append(stanzas_text.as_str());
        out.append("label basic\n  menu label ");
        out.append(self.title.as_str());
        out.append(
            " in basic graphics mode\n  kernel /images/vmlinuz\n  append initrd=/images/initramfs.img ",
        );
        out.append(self.vesa_kargs.as_str());
        out.append(" nomodeset\n");
        if self.memtest {
            out.append("label memtest\n  menu label Run a memory test\n  kernel /images/memtest\n");
        }
        proof {
            assert(self.stanzas@.skip(0) =~= self.stanzas@);
        }
        out
    }
}

fn grub_stanzas_from(ss: &Vec<Stanza>, i: usize) -> (r: String)
    requires
        i <= ss.len(),
    ensures
        r@ == spec_grub_stanzas(ss@.skip(i as int)),
    decreases ss.len() - i,
{
    if i == ss.len() {
        String::new()
    } else {
        let mut out = "menuentry '".to_owned();
        out.append(ss[i].label.as_str());
        out.append("' {\n");
        out.append("\tlinux /images/vmlinuz ");
        out.append(ss[i].kargs.as_str());
        out.append("\n");
        out.append("\tinitrd /images/initramfs.img\n}\n");
        let tail = grub_stanzas_from(ss, i + 1);
        out.append(tail.as_str());
        proof {
            assert(ss@.skip(i as int)[0] == ss@[i as int]);
            assert(ss@.skip(i as int).drop_first() =~= ss@.skip(i + 1));
        }
        out
    }
}

fn syslinux_stanzas_from(ss: &Vec<Stanza>, i: usize) -> (r: String)
    requires
        i <= ss.len(),
    ensures
        r@ == spec_syslinux_stanzas(ss@.skip(i as int)),
    decreases ss.len() - i,
{
    if i == ss.len() {
        String::new()
    } else {
        let mut out = "label ".to_owned();
        out.append(ss[i].name.as_str());
        out.append("\n  menu label ");
        out.append(ss[i].label.as_str());
        out.append("\n  kernel /images/vmlinuz\n  append initrd=/images/initramfs.img ");
        out.append(ss[i].kargs.as_str());
        out.append("\n");
        let tail = syslinux_stanzas_from(ss, i + 1);
        out.append(tail.as_str());
        proof {
            assert(ss@.skip(i as int)[0] == ss@[i as int]);
            assert(ss@.skip(i as int).drop_first() =~= ss@.skip(i + 1));
        }
        out
    }
}

/// Stanzas that agree character for character.
pub open spec fn stanza_eq_view(a: Stanza, b: Stanza) -> bool {
    a.name@ == b.name@ && a.label@ == b.label@ && a.kargs@ == b.kargs@
}

/// Contexts that agree character for character, field by field.
pub open spec fn template_eq_view(a: &Template, b: &Template) -> bool {
    &&& a.product@ == b.product@
    &&& a.title@ == b.title@
    &&& a.fslabel@ == b.fslabel@
    &&& a.timeout == b.timeout
    &&& a.vesa_kargs@ == b.vesa_kargs@
    &&& a.memtest == b.memtest
    &&& a.stanzas@.len() == b.stanzas@.len()
    &&& forall|i: int|
        0 <= i < a.stanzas@.len() ==> stanza_eq_view(a.stanzas@[i], b.stanzas@[i])
}

proof fn lemma_stanzas_congruent(x: Seq<Stanza>, y: Seq<Stanza>)
    requires
        x.len() == y.len(),
        forall|i: int| 0 <= i < x.len() ==> stanza_eq_view(x[i], y[i]),
    ensures
        spec_grub_stanzas(x) == spec_grub_stanzas(y),
        spec_syslinux_stanzas(x) == spec_syslinux_stanzas(y),
    decreases x.len(),
{
    if x.len() > 0 {
        assert(forall|i: int|
            0 <= i < x.drop_first().len() ==> stanza_eq_view(
                x.drop_first()[i],
                y.drop_first()[i],
            ));
        lemma_stanzas_congruent(x.drop_first(), y.drop_first());
    }
}

/// Rendering is a pure function of the context: two contexts that agree
/// character for character render identical GRUB text and identical
/// Syslinux text.
pub proof fn lemma_render_deterministic(a: &Template, b: &Template)
    requires
        template_eq_view(a, b),
    ensures
        spec_grub_text(a) == spec_grub_text(b),
        spec_syslinux_text(a) == spec_syslinux_text(b),
{
    lemma_stanzas_congruent(a.stanzas@, b.stanzas@);
}

} // verus!
