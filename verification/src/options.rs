//! Settings of the code generator: where the files go, the target platform,
//! the indentation width and the prefix of all generated symbols.
use vstd::prelude::*;

verus! {

/// The platform the generated code targets.
#[derive(Debug, Clone, Copy, PartialEq, Eq, Structural)]
pub enum Platform {
    Linux,
}

/// Settings of the code generator.
pub struct Options {
    source_file_path: String,
    header_file_path: String,
    platform: Platform,
    ident: usize,
    namespace: String,
}

/// The mathematical value of [`Options`].
pub struct OptionsView {
    pub source_file_path: Seq<char>,
    pub header_file_path: Seq<char>,
    pub platform: Platform,
    pub indent: nat,
    pub namespace: Seq<char>,
}

impl View for Options {
    type V = OptionsView;

    closed spec fn view(&self) -> OptionsView {
        OptionsView {
            source_file_path: self.source_file_path@,
            header_file_path: self.header_file_path@,
            platform: self.platform,
            indent: self.ident as nat,
            namespace: self.namespace@,
        }
    }
}

impl Default for Options {
    /// Files `canzero.c` and `canzero.h`, Linux, an indentation of two
    /// spaces and the namespace `can`.
    fn default() -> (o: Self)
        ensures
            o@ == (OptionsView {
                source_file_path: "canzero.c"@,
                header_file_path: "canzero.h"@,
                platform: Platform::Linux,
                indent: 2,
                namespace: "can"@,
            }),
    {
        Options {
            source_file_path: "canzero.c".to_owned(),
            header_file_path: "canzero.h".to_owned(),
            platform: Platform::Linux,
            ident: 2,
            namespace: "can".to_owned(),
        }
    }
}

impl Options {
    pub fn source_file_path(&self) -> (p: &str)
        ensures
            p@ == self@.source_file_path,
    {
        self.source_file_path.as_str()
    }

    pub fn header_file_path(&self) -> (p: &str)
        ensures
            p@ == self@.header_file_path,
    {
        self.header_file_path.as_str()
    }

    pub fn platform(&self) -> (p: &Platform)
        ensures
            *p == self@.platform,
    {
        &self.platform
    }

    pub fn indent(&self) -> (i: usize)
        ensures
            i == self@.indent,
    {
        self.ident
    }

    pub fn namespace(&self) -> (n: &str)
        ensures
            n@ == self@.namespace,
    {
        self.namespace.as_str()
    }

    pub fn set_source_file_path(&mut self, path: &str)
        ensures
            final(self)@ == (OptionsView { source_file_path: path@, ..old(self)@ }),
    {
        self.source_file_path = path.to_owned();
    }

    pub fn set_header_file_path(&mut self, path: &str)
        ensures
            final(self)@ == (OptionsView { header_file_path: path@, ..old(self)@ }),
    {
        self.header_file_path = path.to_owned();
    }

    pub fn set_platform(&mut self, platform: Platform)
        ensures
            final(self)@ == (OptionsView { platform, ..old(self)@ }),
    {
        self.platform = platform;
    }

    pub fn set_indent(&mut self, indent: usize)
        ensures
            final(self)@ == (OptionsView { indent: indent as nat, ..old(self)@ }),
    {
        self.ident = indent;
    }

    pub fn set_namespace(&mut self, namespace: &str)
        ensures
            final(self)@ == (OptionsView { namespace: namespace@, ..old(self)@ }),
    {
        self.namespace = namespace.to_owned();
    }
}

} // verus!
