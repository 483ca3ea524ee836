//! The configuration shapes that the data access layer consumes, and the
//! typed-parameter mapping for named queries.
//!
//! Parsing a configuration document into these shapes is the business of
//! the surrounding program; the shapes themselves, the discriminant check
//! of [`Config::map_spec`], and the parameter-type mapping are part of the
//! core and verified.

use vstd::prelude::*;
use vstd::string::StringExecFns;

use crate::datasource::Value;
use crate::datasource::ValueView;
use crate::errors::Error;

verus! {

/// The kind of a configuration document: the explicit discriminant that
/// selects which specification payload it carries.
#[derive(Debug, PartialEq, Eq, Structural)]
pub enum ConfigKind {
    DataService,
    DataSource,
}

/// The transport protocol of an exposed service.
#[derive(Debug, PartialEq, Eq, Structural)]
pub enum Protocol {
    Http,
}

/// The calling style of an exposed service.
#[derive(Debug, PartialEq, Eq, Structural)]
pub enum ServiceStyle {
    Restful,
}

/// How an exposed service is reached.
#[derive(Debug)]
pub struct Transport {
    pub protocol: Protocol,
    pub style: ServiceStyle,
    pub readonly: bool,
}

/// Where and how a configured service is served.
#[derive(Debug)]
pub struct Service {
    pub path: String,
    pub version: u16,
    pub transport: Transport,
}

/// The declared type of a named query parameter.
#[derive(Debug, PartialEq, Eq, Structural)]
pub enum ParamType {
    Float,
    Integer,
    String,
}

/// A named, typed parameter of a named query.
#[derive(Debug)]
pub struct QueryParam {
    pub name: String,
    pub p_type: ParamType,
}

/// A named query: its SQL text with positional placeholders and the
/// ordered list of typed parameters to bind.
#[derive(Debug)]
pub struct QueryInstant {
    pub name: String,
    pub sql: String,
    pub params: Vec<QueryParam>,
}

impl QueryInstant {
    /// Accepts a list of caller-supplied arguments exactly when it has one
    /// argument per declared parameter and every argument's runtime
    /// variant agrees with the declared type, in order; anything else is
    /// a contract violation and fails with a conversion error before
    /// anything reaches the backend.
    pub fn validate_args(&self, args: &[Value]) -> (r: Result<(), Error>)
        ensures
            r is Ok <==> (args@.len() == self.params@.len() && forall|i: int|
                0 <= i < args@.len() ==> #[trigger] self.params@[i].p_type.accepts(args@[i]@)),
            r matches Err(e) ==> e is Convert,
    {
        if args.len() != self.params.len() {
            return Err(
                Error::Convert {
                    cause: String::from_str("the argument count does not match the declaration"),
                },
            );
        }
        let n = args.len();
        let mut i: usize = 0;
        while i < n
            invariant
                i <= n,
                n == args@.len(),
                n == self.params@.len(),
                forall|k: int| 0 <= k < i ==> #[trigger] self.params@[k].p_type.accepts(
                    args@[k]@,
                ),
            decreases n - i,
        {
            match self.params[i].p_type.validate(&args[i]) {
                Ok(u) => u,
                Err(e) => {
                    return Err(e);
                },
            }
            i = i + 1;
        }
        Ok(())
    }
}

/// The backend driver a datasource specification selects.
#[derive(Debug, PartialEq, Eq, Structural)]
pub enum DataSourceDriver {
    Sqlite,
}

/// The declarative description of one storage backend connection: the
/// driver kind, the connection path (`:memory:` denotes a transient
/// in-process store), an optional initialization command run once right
/// after connecting, and the named queries exposed on the source.
#[derive(Debug)]
pub struct DataSourceSpec {
    pub driver: DataSourceDriver,
    pub path: String,
    pub init_script: Option<String>,
    pub query: Vec<QueryInstant>,
}

/// The declarative description of one exposed data-service table mapping:
/// a boundary consumer of a named datasource.
#[derive(Debug)]
pub struct DataServiceSpec {
    pub datasource: String,
    pub table: String,
    pub field: Vec<(String, QueryParam)>,
    pub computed: Vec<(String, String)>,
}

/// The specification payload of a configuration document: a closed set of
/// tagged variants, one per known document kind.
#[derive(Debug)]
pub enum ConfigSpec {
    DataService(DataServiceSpec),
    DataSource(DataSourceSpec),
}

/// A parsed configuration document: its discriminant, its name, the
/// optional service description, and the specification payload.
#[derive(Debug)]
pub struct Config {
    pub kind: ConfigKind,
    pub name: String,
    pub service: Option<Service>,
    pub spec: ConfigSpec,
}

impl Config {
    /// Whether the document's discriminant agrees with the payload it
    /// carries.
    pub open spec fn kind_matches_spec(&self) -> bool {
        match self.spec {
            ConfigSpec::DataService(_) => self.kind == ConfigKind::DataService,
            ConfigSpec::DataSource(_) => self.kind == ConfigKind::DataSource,
        }
    }

    /// Hands out the specification payload, provided the document's
    /// discriminant agrees with it; a mismatched discriminant is rejected
    /// with a configuration error rather than silently accepted.
    pub fn map_spec(self) -> (r: Result<ConfigSpec, Error>)
        ensures
            self.kind_matches_spec() <==> r is Ok,
            r matches Ok(s) ==> s == self.spec,
            r matches Err(e) ==> e matches Error::Config { .. },
    {
        let matches_kind = match (&self.kind, &self.spec) {
            (ConfigKind::DataService, ConfigSpec::DataService(_)) => true,
            (ConfigKind::DataSource, ConfigSpec::DataSource(_)) => true,
            _ => false,
        };
        if matches_kind {
            Ok(self.spec)
        } else {
            Err(
                Error::Config {
                    cause: String::from_str("the document kind does not match its spec payload"),
                },
            )
        }
    }
}

impl ParamType {
    /// Whether a runtime value fits this declared type. No numeric
    /// coercion between floats and integers is admitted, and no other
    /// variant is ever squeezed into a declared slot.
    pub open spec fn accepts(&self, v: ValueView) -> bool {
        match self {
            ParamType::Float => v is Float,
            ParamType::Integer => v is Integer,
            ParamType::String => v is String,
        }
    }

    /// The placeholder value used to bind a parameter of this declared
    /// type before the caller-supplied argument is known: the zero or
    /// empty value of the matching variant.
    pub fn convert(&self) -> (v: Value)
        ensures
            match self {
                ParamType::Float => v@ == ValueView::Float(0),
                ParamType::Integer => v@ == ValueView::Integer(0),
                ParamType::String => v@ == ValueView::String(Seq::<char>::empty()),
            },
            self.accepts(v@),
    {
        match self {
            ParamType::Float => Value::Float(0),
            ParamType::Integer => Value::Integer(0),
            ParamType::String => Value::String(String::new()),
        }
    }

    /// Accepts a caller-supplied argument exactly when its runtime variant
    /// agrees with this declared type; a disagreement is a contract
    /// violation and fails with a conversion error rather than being
    /// coerced.
    pub fn validate(&self, v: &Value) -> (r: Result<(), Error>)
        ensures
            r is Ok <==> self.accepts(v@),
            r matches Err(e) ==> e matches Error::Convert { .. },
    {
        let fits = match (self, v) {
            (ParamType::Float, Value::Float(_)) => true,
            (ParamType::Integer, Value::Integer(_)) => true,
            (ParamType::String, Value::String(_)) => true,
            _ => false,
        };
        if fits {
            Ok(())
        } else {
            Err(
                Error::Convert {
                    cause: String::from_str("the argument does not fit the declared type"),
                },
            )
        }
    }
}

} // verus!
