//! The module: its sections, and reading them from bytes.

use vstd::prelude::*;

use super::decode::decode_maybe_u32;
use super::decode::decodes;
use super::decode::spec_custom;
use super::decode::spec_decodes;
use super::decode::spec_maybe_u32;
use super::decode::Decode;
use super::encode::bytes32;
use super::encode::encode_maybeu32_sec;
use super::encode::encode_sec;
use super::encode::le_bytes32;
use super::encode::spec_encode_custom;
use super::encode::spec_encode_maybeu32_sec;
use super::encode::spec_encode_sec;
use super::encode::Encode;
use super::errors::DecodeErr;
use super::leb128::extend_bytes;
use super::reader::spec_seqs;
use super::reader::spec_u32;
use super::reader::DecodeResult;
use super::reader::Parsed;
use super::reader::Reader;
use super::section::CodeSeg;
use super::section::CodeSegView;
use super::section::CustomSeg;
use super::section::CustomSegView;
use super::section::DataCountSeg;
use super::section::DataSeg;
use super::section::DataSegView;
use super::section::ElementSeg;
use super::section::ElementSegView;
use super::section::ExportSeg;
use super::section::ExportSegView;
use super::section::GlobalSeg;
use super::section::GlobalSegView;
use super::section::ImportSeg;
use super::section::ImportSegView;
use super::section::Section;
use super::section::StartSeg;
use super::section::TypeIdx;
use super::types::FuncType;
use super::types::FuncTypeView;
use super::types::MemType;
use super::types::TableType;

verus! {

/// The four bytes `\0asm`, read as a little-endian number.
pub const MAGIC: u32 = 0x6d736100;

pub const VERSION: u32 = 0x00000001;

/// A module as it was read: one field for each kind of section.
#[derive(Debug)]
pub struct Module {
    pub magic: u32,
    pub version: u32,
    pub custom_sec: Vec<CustomSeg>,
    pub type_sec: Vec<FuncType>,
    pub import_sec: Vec<ImportSeg>,
    pub func_sec: Vec<TypeIdx>,
    pub table_sec: Vec<TableType>,
    pub mem_sec: Vec<MemType>,
    pub global_sec: Vec<GlobalSeg>,
    pub export_sec: Vec<ExportSeg>,
    pub start_sec: StartSeg,
    pub elem_sec: Vec<ElementSeg>,
    pub code_sec: Vec<CodeSeg>,
    pub data_sec: Vec<DataSeg>,
    pub data_counat_sec: DataCountSeg,
}

/// A module as a mathematical value.
pub struct ModuleView {
    pub magic: u32,
    pub version: u32,
    pub custom_sec: Seq<CustomSegView>,
    pub type_sec: Seq<FuncTypeView>,
    pub import_sec: Seq<ImportSegView>,
    pub func_sec: Seq<TypeIdx>,
    pub table_sec: Seq<TableType>,
    pub mem_sec: Seq<MemType>,
    pub global_sec: Seq<GlobalSegView>,
    pub export_sec: Seq<ExportSegView>,
    pub start_sec: StartSeg,
    pub elem_sec: Seq<ElementSegView>,
    pub code_sec: Seq<CodeSegView>,
    pub data_sec: Seq<DataSegView>,
    pub data_counat_sec: DataCountSeg,
}

impl DeepView for Module {
    type V = ModuleView;

    open spec fn deep_view(&self) -> ModuleView {
        ModuleView {
            magic: self.magic,
            version: self.version,
            custom_sec: self.custom_sec.deep_view(),
            type_sec: self.type_sec.deep_view(),
            import_sec: self.import_sec.deep_view(),
            func_sec: self.func_sec.deep_view(),
            table_sec: self.table_sec.deep_view(),
            mem_sec: self.mem_sec.deep_view(),
            global_sec: self.global_sec.deep_view(),
            export_sec: self.export_sec.deep_view(),
            start_sec: self.start_sec,
            elem_sec: self.elem_sec.deep_view(),
            code_sec: self.code_sec.deep_view(),
            data_sec: self.data_sec.deep_view(),
            data_counat_sec: self.data_counat_sec,
        }
    }
}

/// The module without any section.
pub open spec fn empty_module() -> ModuleView {
    ModuleView {
        magic: MAGIC,
        version: VERSION,
        custom_sec: Seq::empty(),
        type_sec: Seq::empty(),
        import_sec: Seq::empty(),
        func_sec: Seq::empty(),
        table_sec: Seq::empty(),
        mem_sec: Seq::empty(),
        global_sec: Seq::empty(),
        export_sec: Seq::empty(),
        start_sec: None,
        elem_sec: Seq::empty(),
        code_sec: Seq::empty(),
        data_sec: Seq::empty(),
        data_counat_sec: None,
    }
}

/// The value that the bytes of a section stand for, if they are used up.
pub open spec fn whole<T>(parsed: Parsed<T>) -> Result<T, DecodeErr> {
    match parsed {
        Ok((v, rest)) => if rest.len() > 0 {
            Err(DecodeErr::SectionSizeMismatch)
        } else {
            Ok(v)
        },
        Err(e) => Err(e),
    }
}

/// The module `m` after the section `id` with the bytes `body` was read
/// into it. A custom section is added to those before it; any other
/// section takes the place of its field.
pub open spec fn spec_section(id: Section, body: Seq<u8>, m: ModuleView) -> Result<
    ModuleView,
    DecodeErr,
> {
    let dc = m.data_counat_sec;
    match id {
        Section::Custom => match whole(spec_custom(body)) {
            Ok(v) => Ok(ModuleView { custom_sec: m.custom_sec.push(v), ..m }),
            Err(e) => Err(e),
        },
        Section::Type => match whole(spec_decodes::<FuncType>(body, dc)) {
            Ok(v) => Ok(ModuleView { type_sec: v, ..m }),
            Err(e) => Err(e),
        },
        Section::Import => match whole(spec_decodes::<ImportSeg>(body, dc)) {
            Ok(v) => Ok(ModuleView { import_sec: v, ..m }),
            Err(e) => Err(e),
        },
        Section::Function => match whole(spec_decodes::<u32>(body, dc)) {
            Ok(v) => Ok(ModuleView { func_sec: v, ..m }),
            Err(e) => Err(e),
        },
        Section::Table => match whole(spec_decodes::<TableType>(body, dc)) {
            Ok(v) => Ok(ModuleView { table_sec: v, ..m }),
            Err(e) => Err(e),
        },
        Section::Memory => match whole(spec_decodes::<MemType>(body, dc)) {
            Ok(v) => Ok(ModuleView { mem_sec: v, ..m }),
            Err(e) => Err(e),
        },
        Section::Global => match whole(spec_decodes::<GlobalSeg>(body, dc)) {
            Ok(v) => Ok(ModuleView { global_sec: v, ..m }),
            Err(e) => Err(e),
        },
        Section::Export => match whole(spec_decodes::<ExportSeg>(body, dc)) {
            Ok(v) => Ok(ModuleView { export_sec: v, ..m }),
            Err(e) => Err(e),
        },
        Section::Start => match whole(spec_maybe_u32(body)) {
            Ok(v) => Ok(ModuleView { start_sec: v, ..m }),
            Err(e) => Err(e),
        },
        Section::Element => match whole(spec_decodes::<ElementSeg>(body, dc)) {
            Ok(v) => Ok(ModuleView { elem_sec: v, ..m }),
            Err(e) => Err(e),
        },
        Section::Code => match whole(spec_decodes::<CodeSeg>(body, dc)) {
            Ok(v) => Ok(ModuleView { code_sec: v, ..m }),
            Err(e) => Err(e),
        },
        Section::Data => match whole(spec_decodes::<DataSeg>(body, dc)) {
            Ok(v) => Ok(ModuleView { data_sec: v, ..m }),
            Err(e) => Err(e),
        },
        Section::DataCount => match whole(spec_maybe_u32(body)) {
            Ok(v) => Ok(ModuleView { data_counat_sec: v, ..m }),
            Err(e) => Err(e),
        },
    }
}

/// The module `m` after all the sections in `s` were read into it, `seen`
/// being the sections other than custom ones that were read before. Each
/// section is an id byte and a length-prefixed body; a section other than
/// a custom one may come once.
pub open spec fn spec_sections(s: Seq<u8>, m: ModuleView, seen: Set<Section>) -> Result<
    ModuleView,
    DecodeErr,
>
    decreases s.len(),
{
    if s.len() == 0 {
        Ok(m)
    } else {
        match Section::spec_from_u8(s[0]) {
            None => Err(DecodeErr::UnexpectedSection(s[0])),
            Some(id) => if id != Section::Custom && seen.contains(id) {
                Err(DecodeErr::MultipleSection(id, 1))
            } else {
                match spec_seqs(s.skip(1)) {
                    Err(e) => Err(e),
                    Ok((body, rest)) => match spec_section(id, body, m) {
                        Err(e) => Err(e),
                        Ok(next) => if rest.len() < s.len() {
                            spec_sections(rest, next, seen.insert(id))
                        } else {
                            Err(DecodeErr::UnexpectedEof)
                        },
                    },
                }
            },
        }
    }
}

/// The check that ends decoding: there is one code entry for each
/// function, and as many data segments as the data count says, if there
/// is one.
pub open spec fn spec_validate_decode(m: ModuleView) -> Result<(), DecodeErr> {
    if m.code_sec.len() != m.func_sec.len() {
        Err(DecodeErr::FuncAndCodeNotEq(m.code_sec.len() as usize, m.func_sec.len() as usize))
    } else if m.data_counat_sec is Some && m.data_sec.len() != m.data_counat_sec->0 {
        Err(
            DecodeErr::DataAndDataCountNotEq(
                m.data_sec.len() as usize,
                m.data_counat_sec->0 as usize,
            ),
        )
    } else {
        Ok(())
    }
}

/// The module that bytes stand for: the magic number, the version, and
/// the sections up to the end of the input.
pub open spec fn spec_module(s: Seq<u8>) -> Result<ModuleView, DecodeErr> {
    match spec_u32(s) {
        Err(e) => Err(e),
        Ok((magic, r1)) => if magic != MAGIC {
            Err(DecodeErr::MagicUnMatch(magic))
        } else {
            match spec_u32(r1) {
                Err(e) => Err(e),
                Ok((version, r2)) => if version != VERSION {
                    Err(DecodeErr::VersionUnMatch(version))
                } else {
                    match spec_sections(r2, empty_module(), Set::empty()) {
                        Err(e) => Err(e),
                        Ok(m) => match spec_validate_decode(m) {
                            Err(e) => Err(e),
                            Ok(_) => Ok(m),
                        },
                    }
                },
            }
        },
    }
}

/// Whether `r` is what `parsed` says, the module being compared by its
/// deep view.
pub open spec fn gives(parsed: Result<ModuleView, DecodeErr>, r: DecodeResult<Module>) -> bool {
    match parsed {
        Ok(m) => r is Ok && r->Ok_0.deep_view() == m,
        Err(e) => r == Err::<Module, DecodeErr>(e),
    }
}

/// Tells a value that was read from the bytes of a section to be the whole
/// of the section.
fn finish<T>(value: T, reader: &mut Reader) -> (r: DecodeResult<T>)
    ensures
        r == if old(reader).remaining().len() > 0 {
            Err::<T, DecodeErr>(DecodeErr::SectionSizeMismatch)
        } else {
            Ok::<T, DecodeErr>(value)
        },
{
    if reader.len() > 0 {
        Err(DecodeErr::SectionSizeMismatch)
    } else {
        Ok(value)
    }
}

/// Reads the whole of a section that holds a vector.
fn decode_vec_section<T: Decode>(body: &[u8], dc: DataCountSeg) -> (r: DecodeResult<Vec<T>>)
    ensures
        match whole(spec_decodes::<T>(body@, dc)) {
            Ok(v) => r is Ok && r->Ok_0.deep_view() == v,
            Err(e) => r == Err::<Vec<T>, DecodeErr>(e),
        },
{
    let mut reader = Reader::new(body, dc);
    let items = decodes::<T>(&mut reader)?;
    finish(items, &mut reader)
}

/// Reads the whole of a section that holds one index.
fn decode_index_section(body: &[u8], dc: DataCountSeg) -> (r: DecodeResult<Option<u32>>)
    ensures
        r == whole(spec_maybe_u32(body@)),
{
    let mut reader = Reader::new(body, dc);
    let v = decode_maybe_u32(&mut reader)?;
    finish(v, &mut reader)
}

/// Reads the whole of a custom section.
fn decode_custom_section(body: &[u8], dc: DataCountSeg) -> (r: DecodeResult<CustomSeg>)
    ensures
        match whole(spec_custom(body@)) {
            Ok(v) => r is Ok && r->Ok_0.deep_view() == v,
            Err(e) => r == Err::<CustomSeg, DecodeErr>(e),
        },
{
    let mut reader = Reader::new(body, dc);
    let v = CustomSeg::decode(&mut reader)?;
    finish(v, &mut reader)
}

impl Module {
    /// A module without sections.
    pub fn new() -> (r: Self)
        ensures
            r.deep_view() == empty_module(),
            r.magic == MAGIC,
            r.version == VERSION,
    {
        let m = Module {
            magic: MAGIC,
            version: VERSION,
            custom_sec: Vec::new(),
            type_sec: Vec::new(),
            import_sec: Vec::new(),
            func_sec: Vec::new(),
            table_sec: Vec::new(),
            mem_sec: Vec::new(),
            global_sec: Vec::new(),
            export_sec: Vec::new(),
            start_sec: None,
            elem_sec: Vec::new(),
            code_sec: Vec::new(),
            data_sec: Vec::new(),
            data_counat_sec: None,
        };
        proof {
            assert(m.custom_sec.deep_view() =~= Seq::empty());
            assert(m.type_sec.deep_view() =~= Seq::empty());
            assert(m.import_sec.deep_view() =~= Seq::empty());
            assert(m.func_sec.deep_view() =~= Seq::empty());
            assert(m.table_sec.deep_view() =~= Seq::empty());
            assert(m.mem_sec.deep_view() =~= Seq::empty());
            assert(m.global_sec.deep_view() =~= Seq::empty());
            assert(m.export_sec.deep_view() =~= Seq::empty());
            assert(m.elem_sec.deep_view() =~= Seq::empty());
            assert(m.code_sec.deep_view() =~= Seq::empty());
            assert(m.data_sec.deep_view() =~= Seq::empty());
        }
        m
    }

    /// Reads a module from the bytes of a binary.
    pub fn from_data(data: Vec<u8>) -> (r: DecodeResult<Self>)
        ensures
            gives(spec_module(data@), r),
            r matches Ok(m) ==> m.magic == MAGIC && m.version == VERSION,
    {
        let mut reader = Reader::new(data.as_slice(), None);
        Self::decode_module(&mut reader)
    }

    /// Reads the section `id` from its bytes into the module.
    fn decode_section(&mut self, id: Section, body: &[u8]) -> (r: DecodeResult<()>)
        ensures
            match spec_section(id, body@, old(self).deep_view()) {
                Ok(next) => r is Ok && final(self).deep_view() == next,
                Err(e) => r == Err::<(), DecodeErr>(e),
            },
            final(self).magic == old(self).magic,
            final(self).version == old(self).version,
    {
        let dc = self.data_counat_sec;
        match id {
            Section::Custom => {
                let ghost before = self.custom_sec.deep_view();
                let v = decode_custom_section(body, dc)?;
                self.custom_sec.push(v);
                proof {
                    assert(self.custom_sec.deep_view() =~= before.push(v.deep_view()));
                }
            },
            Section::Type => {
                self.type_sec = decode_vec_section::<FuncType>(body, dc)?;
            },
            Section::Import => {
                self.import_sec = decode_vec_section::<ImportSeg>(body, dc)?;
            },
            Section::Function => {
                self.func_sec = decode_vec_section::<u32>(body, dc)?;
            },
            Section::Table => {
                self.table_sec = decode_vec_section::<TableType>(body, dc)?;
            },
            Section::Memory => {
                self.mem_sec = decode_vec_section::<MemType>(body, dc)?;
            },
            Section::Global => {
                self.global_sec = decode_vec_section::<GlobalSeg>(body, dc)?;
            },
            Section::Export => {
                self.export_sec = decode_vec_section::<ExportSeg>(body, dc)?;
            },
            Section::Start => {
                self.start_sec = decode_index_section(body, dc)?;
            },
            Section::Element => {
                self.elem_sec = decode_vec_section::<ElementSeg>(body, dc)?;
            },
            Section::Code => {
                self.code_sec = decode_vec_section::<CodeSeg>(body, dc)?;
            },
            Section::Data => {
                self.data_sec = decode_vec_section::<DataSeg>(body, dc)?;
            },
            Section::DataCount => {
                self.data_counat_sec = decode_index_section(body, dc)?;
            },
        }
        Ok(())
    }

    /// Checks that there is one code entry for each function, and as many
    /// data segments as the data count says.
    pub fn validate_decode(&self) -> (r: DecodeResult<()>)
        ensures
            r == spec_validate_decode(self.deep_view()),
    {
        if self.code_sec.len() != self.func_sec.len() {
            return Err(DecodeErr::FuncAndCodeNotEq(self.code_sec.len(), self.func_sec.len()));
        }
        if let Some(count) = self.data_counat_sec {
            if self.data_sec.len() != (count as usize) {
                return Err(
                    DecodeErr::DataAndDataCountNotEq(self.data_sec.len(), count as usize),
                );
            }
        }
        Ok(())
    }

    /// Reads a module: the header, then sections up to the end of the
    /// input.
    pub fn decode_module(reader: &mut Reader) -> (r: DecodeResult<Module>)
        ensures
            gives(spec_module(old(reader).remaining()), r),
            final(reader).data_count() == old(reader).data_count(),
            r is Ok ==> final(reader).remaining() == Seq::<u8>::empty(),
            r matches Ok(m) ==> m.magic == MAGIC && m.version == VERSION,
    {
        let magic = reader.get_u32()?;
        if magic != MAGIC {
            return Err(DecodeErr::MagicUnMatch(magic));
        }
        let version = reader.get_u32()?;
        if version != VERSION {
            return Err(DecodeErr::VersionUnMatch(version));
        }
        let mut module = Module::new();
        let mut seen: Vec<bool> = vec![false; 13];
        let ghost start = reader.remaining();
        let ghost mut seen_set: Set<Section> = Set::empty();
        loop
            invariant
                seen@.len() == 13,
                forall|id: Section|
                    id != Section::Custom ==> (#[trigger] seen_set.contains(id)
                        <==> seen@[id.spec_id() as int]),
                spec_sections(start, empty_module(), Set::empty()) == spec_sections(
                    reader.remaining(),
                    module.deep_view(),
                    seen_set,
                ),
                spec_u32(old(reader).remaining()) is Ok,
                spec_u32(old(reader).remaining())->Ok_0.0 == MAGIC,
                spec_u32(spec_u32(old(reader).remaining())->Ok_0.1) == Ok::<
                    (u32, Seq<u8>),
                    DecodeErr,
                >((VERSION, start)),
                reader.data_count() == old(reader).data_count(),
                module.magic == MAGIC,
                module.version == VERSION,
            ensures
                reader.remaining().len() == 0,
            decreases reader.remaining().len(),
        {
            let more = reader.not_end()?;
            if !more {
                break ;
            }
            let ghost before = reader.remaining();
            let b = reader.get_u8()?;
            let id = Section::from_u8(b)?;
            let i: usize = b as usize;
            if !matches!(id, Section::Custom) && seen[i] {
                return Err(DecodeErr::MultipleSection(id, 1));
            }
            let sec_data = reader.seqs()?;
            if !matches!(id, Section::Custom) {
                seen[i] = true;
            }
            module.decode_section(id, sec_data.as_slice())?;
            proof {
                assert(reader.remaining().len() < before.len());
                let old_set = seen_set;
                seen_set = seen_set.insert(id);
                assert forall|other: Section| other != Section::Custom implies (
                #[trigger] seen_set.contains(other) <==> seen@[other.spec_id() as int]) by {
                    if other != id {
                        assert(old_set.contains(other) <==> seen_set.contains(other));
                    }
                }
            }
        }
        module.validate_decode()?;
        proof {
            assert(reader.remaining() =~= Seq::<u8>::empty());
        }
        Ok(module)
    }
}

/// The bytes of the first `k` custom sections, one after the other.
pub open spec fn spec_encode_customs(customs: Seq<CustomSegView>, k: int) -> Seq<u8>
    decreases k,
{
    if k <= 0 {
        Seq::empty()
    } else {
        spec_encode_customs(customs, k - 1) + spec_encode_custom(customs[k - 1])
    }
}

/// The bytes of a module: the header, the sections that are not empty in
/// the order type, import, function, table, memory, global, export, start,
/// element, data count, code, data, and then the custom sections.
pub open spec fn spec_encode_module(m: ModuleView) -> Seq<u8> {
    le_bytes32(MAGIC) + le_bytes32(VERSION) + spec_encode_sec::<FuncType>(
        Section::Type,
        m.type_sec,
    ) + spec_encode_sec::<ImportSeg>(Section::Import, m.import_sec) + spec_encode_sec::<u32>(
        Section::Function,
        m.func_sec,
    ) + spec_encode_sec::<TableType>(Section::Table, m.table_sec) + spec_encode_sec::<MemType>(
        Section::Memory,
        m.mem_sec,
    ) + spec_encode_sec::<GlobalSeg>(Section::Global, m.global_sec) + spec_encode_sec::<ExportSeg>(
        Section::Export,
        m.export_sec,
    ) + spec_encode_maybeu32_sec(Section::Start, m.start_sec) + spec_encode_sec::<ElementSeg>(
        Section::Element,
        m.elem_sec,
    ) + spec_encode_maybeu32_sec(Section::DataCount, m.data_counat_sec) + spec_encode_sec::<
        CodeSeg,
    >(Section::Code, m.code_sec) + spec_encode_sec::<DataSeg>(Section::Data, m.data_sec)
        + spec_encode_customs(m.custom_sec, m.custom_sec.len() as int)
}

impl Encode for Module {
    open spec fn spec_encode(v: ModuleView) -> Seq<u8> {
        spec_encode_module(v)
    }

    fn encode(&self) -> (r: Vec<u8>) {
        let mut results = bytes32(MAGIC);
        let version = bytes32(VERSION);
        extend_bytes(&mut results, version.as_slice());
        let sec = encode_sec(Section::Type, &self.type_sec);
        extend_bytes(&mut results, sec.as_slice());
        let sec = encode_sec(Section::Import, &self.import_sec);
        extend_bytes(&mut results, sec.as_slice());
        let sec = encode_sec(Section::Function, &self.func_sec);
        extend_bytes(&mut results, sec.as_slice());
        let sec = encode_sec(Section::Table, &self.table_sec);
        extend_bytes(&mut results, sec.as_slice());
        let sec = encode_sec(Section::Memory, &self.mem_sec);
        extend_bytes(&mut results, sec.as_slice());
        let sec = encode_sec(Section::Global, &self.global_sec);
        extend_bytes(&mut results, sec.as_slice());
        let sec = encode_sec(Section::Export, &self.export_sec);
        extend_bytes(&mut results, sec.as_slice());
        let sec = encode_maybeu32_sec(Section::Start, self.start_sec);
        extend_bytes(&mut results, sec.as_slice());
        let sec = encode_sec(Section::Element, &self.elem_sec);
        extend_bytes(&mut results, sec.as_slice());
        let sec = encode_maybeu32_sec(Section::DataCount, self.data_counat_sec);
        extend_bytes(&mut results, sec.as_slice());
        let sec = encode_sec(Section::Code, &self.code_sec);
        extend_bytes(&mut results, sec.as_slice());
        let sec = encode_sec(Section::Data, &self.data_sec);
        extend_bytes(&mut results, sec.as_slice());
        let sec = encode_customs(&self.custom_sec);
        extend_bytes(&mut results, sec.as_slice());
        results
    }
}

/// Writes the custom sections one after the other.
fn encode_customs(customs: &Vec<CustomSeg>) -> (r: Vec<u8>)
    ensures
        r@ == spec_encode_customs(customs.deep_view(), customs@.len() as int),
{
    let mut results: Vec<u8> = Vec::new();
    let mut i: usize = 0;
    while i < customs.len()
        invariant
            i <= customs.len(),
            results@ == spec_encode_customs(customs.deep_view(), i as int),
        decreases customs.len() - i,
    {
        let custom = customs[i].encode();
        extend_bytes(&mut results, custom.as_slice());
        i += 1;
    }
    results
}

impl Decode for Module {
    open spec fn spec_decode(s: Seq<u8>, dc: DataCountSeg) -> Parsed<ModuleView> {
        match spec_module(s) {
            Ok(m) => Ok((m, Seq::empty())),
            Err(e) => Err(e),
        }
    }

    fn decode(reader: &mut Reader) -> (r: DecodeResult<Module>) {
        Module::decode_module(reader)
    }
}

} // verus!
