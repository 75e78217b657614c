//! The macro/template subsystem of a self-describing data serialization
//! format: the macro and template-body data model, the registry that
//! resolves macro identities by name or numeric address, the static
//! expansion analysis attached to each macro, and the hand-assembled
//! bootstrap of the built-in system macro table.

pub mod analysis;
pub mod errors;
pub mod laws;
pub mod name_index;
pub mod opcode;
pub mod system;
pub mod table;
pub mod template;
pub mod value;
pub mod writer;

pub use analysis::ExpansionAnalysis;
pub use table::Macro;
pub use table::MacroIdRef;
pub use table::MacroKind;
pub use table::MacroRef;
pub use table::MacroTable;
pub use table::TemplateMacroRef;
pub use opcode::Header;
pub use opcode::LengthType;
pub use opcode::Opcode;
pub use opcode::OpcodeType;
pub use analysis::ExpansionSingleton;
pub use errors::IonError;
pub use table::FIRST_USER_MACRO_ID;
pub use table::NUM_SYSTEM_MACROS;
pub use template::MacroSignature;
pub use template::Parameter;
pub use template::ParameterCardinality;
pub use template::ParameterEncoding;
pub use template::RestSyntaxPolicy;
pub use template::TemplateBody;
pub use template::TemplateBodyElement;
pub use template::TemplateBodyExpr;
pub use template::TemplateMacro;
pub use value::IonType;
pub use value::Symbol;
pub use writer::LazyRawTextWriter_1_1;
