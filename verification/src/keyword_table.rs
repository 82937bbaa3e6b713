use vstd::prelude::*;

verus! {

/// A SQL keyword: the ANSI SQL:2016 key words, followed by the few
/// non-standard key words that the MySQL, PostgreSQL and SQLite dialects add.
#[allow(non_camel_case_types)]
#[derive(Copy, Clone, Debug, PartialEq, Eq, Hash, Structural)]
pub enum Keyword {
    A,
    ABS,
    ABSOLUTE,
    ACOS,
    ACTION,
    ADA,
    ADD,
    ADMIN,
    AFTER,
    ALL,
    ALLOCATE,
    ALTER,
    ALWAYS,
    AND,
    ANY,
    ARE,
    ARRAY,
    ARRAY_AGG,
    ARRAY_MAX_CARDINALITY,
    AS,
    ASC,
    ASENSITIVE,
    ASIN,
    ASSERTION,
    ASSIGNMENT,
    ASYMMETRIC,
    AT,
    ATAN,
    ATOMIC,
    ATTRIBUTE,
    ATTRIBUTES,
    AUTHORIZATION,
    AVG,
    BEFORE,
    BEGIN,
    BEGIN_FRAME,
    BEGIN_PARTITION,
    BERNOULLI,
    BETWEEN,
    BIGINT,
    BINARY,
    BLOB,
    BOOLEAN,
    BOTH,
    BREADTH,
    BY,
    C,
    CALL,
    CALLED,
    CARDINALITY,
    CASCADE,
    CASCADED,
    CASE,
    CAST,
    CATALOG,
    CATALOG_NAME,
    CEIL,
    CEILING,
    CHAIN,
    CHAINING,
    CHAR,
    CHARACTER,
    CHARACTERISTICS,
    CHARACTER_LENGTH,
    CHARACTERS,
    CHARACTER_SET_CATALOG,
    CHARACTER_SET_NAME,
    CHARACTER_SET_SCHEMA,
    CHAR_LENGTH,
    CHECK,
    CLASSIFIER,
    CLASS_ORIGIN,
    CLOB,
    CLOSE,
    COALESCE,
    COBOL,
    COLLATE,
    COLLATION,
    COLLATION_CATALOG,
    COLLATION_NAME,
    COLLATION_SCHEMA,
    COLLECT,
    COLUMN,
    COLUMN_NAME,
    COLUMNS,
    COMMAND_FUNCTION,
    COMMAND_FUNCTION_CODE,
    COMMIT,
    COMMITTED,
    CONDITION,
    CONDITIONAL,
    CONDITION_NUMBER,
    CONNECT,
    CONNECTION,
    CONNECTION_NAME,
    CONSTRAINT,
    CONSTRAINT_CATALOG,
    CONSTRAINT_NAME,
    CONSTRAINTS,
    CONSTRAINT_SCHEMA,
    CONSTRUCTOR,
    CONTAINS,
    CONTINUE,
    CONVERT,
    COPY,
    CORR,
    CORRESPONDING,
    COS,
    COSH,
    COUNT,
    COVAR_POP,
    COVAR_SAMP,
    CREATE,
    CROSS,
    CUBE,
    CUME_DIST,
    CURRENT,
    CURRENT_CATALOG,
    CURRENT_DATE,
    CURRENT_DEFAULT_TRANSFORM_GROUP,
    CURRENT_PATH,
    CURRENT_ROLE,
    CURRENT_ROW,
    CURRENT_SCHEMA,
    CURRENT_TIME,
    CURRENT_TIMESTAMP,
    CURRENT_TRANSFORM_GROUP_FOR_TYPE,
    CURRENT_USER,
    CURSOR,
    CURSOR_NAME,
    CYCLE,
    DATA,
    DATE,
    DATETIME_INTERVAL_CODE,
    DATETIME_INTERVAL_PRECISION,
    DAY,
    DEALLOCATE,
    DEC,
    DECFLOAT,
    DECIMAL,
    DECLARE,
    DEFAULT,
    DEFAULTS,
    DEFERRABLE,
    DEFERRED,
    DEFINE,
    DEFINED,
    DEFINER,
    DEGREE,
    DELETE,
    DENSE_RANK,
    DEPTH,
    DEREF,
    DERIVED,
    DESC,
    DESCRIBE,
    DESCRIBE_CATALOG,
    DESCRIBE_NAME,
    DESCRIBE_PROCEDURE_SPECIFIC_CATALOG,
    DESCRIBE_PROCEDURE_SPECIFIC_NAME,
    DESCRIBE_PROCEDURE_SPECIFIC_SCHEMA,
    DESCRIBE_SCHEMA,
    DESCRIPTOR,
    DETERMINISTIC,
    DIAGNOSTICS,
    DISCONNECT,
    DISPATCH,
    DISTINCT,
    DOMAIN,
    DOUBLE,
    DROP,
    DYNAMIC,
    DYNAMIC_FUNCTION,
    DYNAMIC_FUNCTION_CODE,
    EACH,
    ELEMENT,
    ELSE,
    EMPTY,
    ENCODING,
    END,
    END_FRAME,
    END_PARTITION,
    ENFORCED,
    EQUALS,
    ERROR,
    ESCAPE,
    EVERY,
    EXCEPT,
    EXCLUDE,
    EXCLUDING,
    EXEC,
    EXECUTE,
    EXISTS,
    EXP,
    EXPRESSION,
    EXTERNAL,
    EXTRACT,
    FALSE,
    FETCH,
    FILTER,
    FINAL,
    FINISH,
    FINISH_CATALOG,
    FINISH_NAME,
    FINISH_PROCEDURE_SPECIFIC_CATALOG,
    FINISH_PROCEDURE_SPECIFIC_NAME,
    FINISH_PROCEDURE_SPECIFIC_SCHEMA,
    FINISH_SCHEMA,
    FIRST,
    FIRST_VALUE,
    FLAG,
    FLOAT,
    FLOOR,
    FOLLOWING,
    FOR,
    FOREIGN,
    FORMAT,
    FORTRAN,
    FOUND,
    FRAME_ROW,
    FREE,
    FROM,
    FULFILL,
    FULFILL_CATALOG,
    FULFILL_NAME,
    FULFILL_PROCEDURE_SPECIFIC_CATALOG,
    FULFILL_PROCEDURE_SPECIFIC_NAME,
    FULFILL_PROCEDURE_SPECIFIC_SCHEMA,
    FULFILL_SCHEMA,
    FULL,
    FUNCTION,
    FUSION,
    G,
    GENERAL,
    GENERATED,
    GET,
    GLOBAL,
    GO,
    GOTO,
    GRANT,
    GRANTED,
    GROUP,
    GROUPING,
    GROUPS,
    HAS_PASS_THROUGH_COLUMNS,
    HAS_PASS_THRU_COLS,
    HAVING,
    HIERARCHY,
    HOLD,
    HOUR,
    IDENTITY,
    IGNORE,
    IMMEDIATE,
    IMMEDIATELY,
    IMPLEMENTATION,
    IN,
    INCLUDING,
    INCREMENT,
    INDICATOR,
    INITIAL,
    INITIALLY,
    INNER,
    INOUT,
    INPUT,
    INSENSITIVE,
    INSERT,
    INSTANCE,
    INSTANTIABLE,
    INSTEAD,
    INT,
    INTEGER,
    INTERSECT,
    INTERSECTION,
    INTERVAL,
    INTO,
    INVOKER,
    IS,
    ISOLATION,
    IS_PRUNABLE,
    JOIN,
    JSON,
    JSON_ARRAY,
    JSON_ARRAYAGG,
    JSON_EXISTS,
    JSON_OBJECT,
    JSON_OBJECTAGG,
    JSON_QUERY,
    JSON_TABLE,
    JSON_TABLE_PRIMITIVE,
    JSON_VALUE,
    K,
    KEEP,
    KEY,
    KEY_MEMBER,
    KEYS,
    KEY_TYPE,
    LAG,
    LANGUAGE,
    LARGE,
    LAST,
    LAST_VALUE,
    LATERAL,
    LEAD,
    LEADING,
    LEFT,
    LENGTH,
    LEVEL,
    LIKE,
    LIKE_REGEX,
    LISTAGG,
    LN,
    LOCAL,
    LOCALTIME,
    LOCALTIMESTAMP,
    LOCATOR,
    LOG,
    LOG10,
    LOWER,
    M,
    MAP,
    MATCH,
    MATCHED,
    MATCHES,
    MATCH_NUMBER,
    MATCH_RECOGNIZE,
    MAX,
    MAXVALUE,
    MEMBER,
    MERGE,
    MESSAGE_LENGTH,
    MESSAGE_OCTET_LENGTH,
    MESSAGE_TEXT,
    METHOD,
    MIN,
    MINUTE,
    MINVALUE,
    MOD,
    MODIFIES,
    MODULE,
    MONTH,
    MORE,
    MULTISET,
    MUMPS,
    NAME,
    NAMES,
    NATIONAL,
    NATURAL,
    NCHAR,
    NCLOB,
    NESTED,
    NESTING,
    NEW,
    NEXT,
    NFC,
    NFD,
    NFKC,
    NFKD,
    NO,
    NONE,
    NORMALIZE,
    NORMALIZED,
    NOT,
    NTH_VALUE,
    NTILE,
    NULL,
    NULLABLE,
    NULLIF,
    NULLS,
    NUMBER,
    NUMERIC,
    OBJECT,
    OCCURRENCES_REGEX,
    OCTET_LENGTH,
    OCTETS,
    OF,
    OFFSET,
    OLD,
    OMIT,
    ON,
    ONE,
    ONLY,
    OPEN,
    OPTION,
    OPTIONS,
    OR,
    ORDER,
    ORDERING,
    ORDINALITY,
    OTHERS,
    OUT,
    OUTER,
    OUTPUT,
    OVER,
    OVERFLOW,
    OVERLAPS,
    OVERLAY,
    OVERRIDING,
    P,
    PAD,
    PARAMETER,
    PARAMETER_MODE,
    PARAMETER_NAME,
    PARAMETER_ORDINAL_POSITION,
    PARAMETER_SPECIFIC_CATALOG,
    PARAMETER_SPECIFIC_NAME,
    PARAMETER_SPECIFIC_SCHEMA,
    PARTIAL,
    PARTITION,
    PASCAL,
    PASS,
    PASSING,
    PAST,
    PATH,
    PATTERN,
    PER,
    PERCENT,
    PERCENTILE_CONT,
    PERCENTILE_DISC,
    PERCENT_RANK,
    PERIOD,
    PLACING,
    PLAN,
    PLI,
    PORTION,
    POSITION,
    POSITION_REGEX,
    POWER,
    PRECEDES,
    PRECEDING,
    PRECISION,
    PREPARE,
    PRESERVE,
    PRIMARY,
    PRIOR,
    PRIVATE,
    PRIVATE_PARAMETERS,
    PRIVATE_PARAMS_S,
    PRIVILEGES,
    PROCEDURE,
    PRUNE,
    PTF,
    PUBLIC,
    QUOTES,
    RANGE,
    RANK,
    READ,
    READS,
    REAL,
    RECURSIVE,
    REF,
    REFERENCES,
    REFERENCING,
    REGR_AVGX,
    REGR_AVGY,
    REGR_COUNT,
    REGR_INTERCEPT,
    REGR_R2,
    REGR_SLOPE,
    REGR_SXX,
    REGR_SXY,
    REGR_SYY,
    RELATIVE,
    RELEASE,
    REPEATABLE,
    RESPECT,
    RESTART,
    RESTRICT,
    RESULT,
    RET_ONLY_PASS_THRU,
    RETURN,
    RETURNED_CARDINALITY,
    RETURNED_LENGTH,
    RETURNED_OCTET_LENGTH,
    RETURNED_SQLSTATE,
    RETURNING,
    RETURNS,
    RETURNS_ONLY_PASS_THROUGH,
    REVOKE,
    RIGHT,
    ROLE,
    ROLLBACK,
    ROLLUP,
    ROUTINE,
    ROUTINE_CATALOG,
    ROUTINE_NAME,
    ROUTINE_SCHEMA,
    ROW,
    ROW_COUNT,
    ROW_NUMBER,
    ROWS,
    RUNNING,
    SAVEPOINT,
    SCALAR,
    SCALE,
    SCHEMA,
    SCHEMA_NAME,
    SCOPE,
    SCOPE_CATALOG,
    SCOPE_NAME,
    SCOPE_SCHEMA,
    SCROLL,
    SEARCH,
    SECOND,
    SECTION,
    SECURITY,
    SEEK,
    SELECT,
    SELF,
    SENSITIVE,
    SEQUENCE,
    SERIALIZABLE,
    SERVER_NAME,
    SESSION,
    SESSION_USER,
    SET,
    SETS,
    SHOW,
    SIMILAR,
    SIMPLE,
    SIN,
    SINH,
    SIZE,
    SKIP,
    SMALLINT,
    SOME,
    SOURCE,
    SPACE,
    SPECIFIC,
    SPECIFIC_NAME,
    SPECIFICTYPE,
    SQL,
    SQLEXCEPTION,
    SQLSTATE,
    SQLWARNING,
    SQRT,
    START,
    START_CATALOG,
    START_NAME,
    START_PROCEDURE_SPECIFIC_CATALOG,
    START_PROCEDURE_SPECIFIC_NAME,
    START_PROCEDURE_SPECIFIC_SCHEMA,
    START_SCHEMA,
    STATE,
    STATEMENT,
    STATIC,
    STDDEV_POP,
    STDDEV_SAMP,
    STRING,
    STRUCTURE,
    STYLE,
    SUBCLASS_ORIGIN,
    SUBMULTISET,
    SUBSET,
    SUBSTRING,
    SUBSTRING_REGEX,
    SUCCEEDS,
    SUM,
    SYMMETRIC,
    SYSTEM,
    SYSTEM_TIME,
    SYSTEM_USER,
    T,
    TABLE,
    TABLE_NAME,
    TABLESAMPLE,
    TABLE_SEMANTICS,
    TAN,
    TANH,
    TEMPORARY,
    THEN,
    THROUGH,
    TIES,
    TIME,
    TIMESTAMP,
    TIMEZONE_HOUR,
    TIMEZONE_MINUTE,
    TO,
    TOP_LEVEL_COUNT,
    TRAILING,
    TRANSACTION,
    TRANSACTION_ACTIVE,
    TRANSACTIONS_COMMITTED,
    TRANSACTIONS_ROLLED_BACK,
    TRANSFORM,
    TRANSFORMS,
    TRANSLATE,
    TRANSLATE_REGEX,
    TRANSLATION,
    TREAT,
    TRIGGER,
    TRIGGER_CATALOG,
    TRIGGER_NAME,
    TRIGGER_SCHEMA,
    TRIM,
    TRIM_ARRAY,
    TRUE,
    TRUNCATE,
    TYPE,
    UESCAPE,
    UNBOUNDED,
    UNCOMMITTED,
    UNCONDITIONAL,
    UNDER,
    UNION,
    UNIQUE,
    UNKNOWN,
    UNNAMED,
    UNNEST,
    UPDATE,
    UPPER,
    USAGE,
    USER,
    USER_DEFINED_TYPE_CATALOG,
    USER_DEFINED_TYPE_CODE,
    USER_DEFINED_TYPE_NAME,
    USER_DEFINED_TYPE_SCHEMA,
    USING,
    UTF16,
    UTF32,
    UTF8,
    VALUE,
    VALUE_OF,
    VALUES,
    VARBINARY,
    VARCHAR,
    VAR_POP,
    VAR_SAMP,
    VARYING,
    VERSIONING,
    VIEW,
    WHEN,
    WHENEVER,
    WHERE,
    WIDTH_BUCKET,
    WINDOW,
    WITH,
    WITHIN,
    WITHOUT,
    WORK,
    WRAPPER,
    WRITE,
    YEAR,
    ZONE,
    DATABASE,
    DATETIME,
    ILIKE,
    LIMIT,
    REPLACE,
    XOR,
    IF,
    INDEX,
}

/// The number of entries in the keyword table.
pub const KEYWORD_COUNT: u16 = 651;

/// Entries 0..50 of the keyword table.
pub open spec fn spec_keyword_at_0(i: u16) -> Keyword {
    match i {
        0u16 => Keyword::A,
        1u16 => Keyword::ABS,
        2u16 => Keyword::ABSOLUTE,
        3u16 => Keyword::ACOS,
        4u16 => Keyword::ACTION,
        5u16 => Keyword::ADA,
        6u16 => Keyword::ADD,
        7u16 => Keyword::ADMIN,
        8u16 => Keyword::AFTER,
        9u16 => Keyword::ALL,
        10u16 => Keyword::ALLOCATE,
        11u16 => Keyword::ALTER,
        12u16 => Keyword::ALWAYS,
        13u16 => Keyword::AND,
        14u16 => Keyword::ANY,
        15u16 => Keyword::ARE,
        16u16 => Keyword::ARRAY,
        17u16 => Keyword::ARRAY_AGG,
        18u16 => Keyword::ARRAY_MAX_CARDINALITY,
        19u16 => Keyword::AS,
        20u16 => Keyword::ASC,
        21u16 => Keyword::ASENSITIVE,
        22u16 => Keyword::ASIN,
        23u16 => Keyword::ASSERTION,
        24u16 => Keyword::ASSIGNMENT,
        25u16 => Keyword::ASYMMETRIC,
        26u16 => Keyword::AT,
        27u16 => Keyword::ATAN,
        28u16 => Keyword::ATOMIC,
        29u16 => Keyword::ATTRIBUTE,
        30u16 => Keyword::ATTRIBUTES,
        31u16 => Keyword::AUTHORIZATION,
        32u16 => Keyword::AVG,
        33u16 => Keyword::BEFORE,
        34u16 => Keyword::BEGIN,
        35u16 => Keyword::BEGIN_FRAME,
        36u16 => Keyword::BEGIN_PARTITION,
        37u16 => Keyword::BERNOULLI,
        38u16 => Keyword::BETWEEN,
        39u16 => Keyword::BIGINT,
        40u16 => Keyword::BINARY,
        41u16 => Keyword::BLOB,
        42u16 => Keyword::BOOLEAN,
        43u16 => Keyword::BOTH,
        44u16 => Keyword::BREADTH,
        45u16 => Keyword::BY,
        46u16 => Keyword::C,
        47u16 => Keyword::CALL,
        48u16 => Keyword::CALLED,
        49u16 => Keyword::CARDINALITY,
        _ => Keyword::A,
    }
}

/// Entries 50..100 of the keyword table.
pub open spec fn spec_keyword_at_1(i: u16) -> Keyword {
    match i {
        50u16 => Keyword::CASCADE,
        51u16 => Keyword::CASCADED,
        52u16 => Keyword::CASE,
        53u16 => Keyword::CAST,
        54u16 => Keyword::CATALOG,
        55u16 => Keyword::CATALOG_NAME,
        56u16 => Keyword::CEIL,
        57u16 => Keyword::CEILING,
        58u16 => Keyword::CHAIN,
        59u16 => Keyword::CHAINING,
        60u16 => Keyword::CHAR,
        61u16 => Keyword::CHARACTER,
        62u16 => Keyword::CHARACTERISTICS,
        63u16 => Keyword::CHARACTER_LENGTH,
        64u16 => Keyword::CHARACTERS,
        65u16 => Keyword::CHARACTER_SET_CATALOG,
        66u16 => Keyword::CHARACTER_SET_NAME,
        67u16 => Keyword::CHARACTER_SET_SCHEMA,
        68u16 => Keyword::CHAR_LENGTH,
        69u16 => Keyword::CHECK,
        70u16 => Keyword::CLASSIFIER,
        71u16 => Keyword::CLASS_ORIGIN,
        72u16 => Keyword::CLOB,
        73u16 => Keyword::CLOSE,
        74u16 => Keyword::COALESCE,
        75u16 => Keyword::COBOL,
        76u16 => Keyword::COLLATE,
        77u16 => Keyword::COLLATION,
        78u16 => Keyword::COLLATION_CATALOG,
        79u16 => Keyword::COLLATION_NAME,
        80u16 => Keyword::COLLATION_SCHEMA,
        81u16 => Keyword::COLLECT,
        82u16 => Keyword::COLUMN,
        83u16 => Keyword::COLUMN_NAME,
        84u16 => Keyword::COLUMNS,
        85u16 => Keyword::COMMAND_FUNCTION,
        86u16 => Keyword::COMMAND_FUNCTION_CODE,
        87u16 => Keyword::COMMIT,
        88u16 => Keyword::COMMITTED,
        89u16 => Keyword::CONDITION,
        90u16 => Keyword::CONDITIONAL,
        91u16 => Keyword::CONDITION_NUMBER,
        92u16 => Keyword::CONNECT,
        93u16 => Keyword::CONNECTION,
        94u16 => Keyword::CONNECTION_NAME,
        95u16 => Keyword::CONSTRAINT,
        96u16 => Keyword::CONSTRAINT_CATALOG,
        97u16 => Keyword::CONSTRAINT_NAME,
        98u16 => Keyword::CONSTRAINTS,
        99u16 => Keyword::CONSTRAINT_SCHEMA,
        _ => Keyword::CASCADE,
    }
}

/// Entries 100..150 of the keyword table.
pub open spec fn spec_keyword_at_2(i: u16) -> Keyword {
    match i {
        100u16 => Keyword::CONSTRUCTOR,
        101u16 => Keyword::CONTAINS,
        102u16 => Keyword::CONTINUE,
        103u16 => Keyword::CONVERT,
        104u16 => Keyword::COPY,
        105u16 => Keyword::CORR,
        106u16 => Keyword::CORRESPONDING,
        107u16 => Keyword::COS,
        108u16 => Keyword::COSH,
        109u16 => Keyword::COUNT,
        110u16 => Keyword::COVAR_POP,
        111u16 => Keyword::COVAR_SAMP,
        112u16 => Keyword::CREATE,
        113u16 => Keyword::CROSS,
        114u16 => Keyword::CUBE,
        115u16 => Keyword::CUME_DIST,
        116u16 => Keyword::CURRENT,
        117u16 => Keyword::CURRENT_CATALOG,
        118u16 => Keyword::CURRENT_DATE,
        119u16 => Keyword::CURRENT_DEFAULT_TRANSFORM_GROUP,
        120u16 => Keyword::CURRENT_PATH,
        121u16 => Keyword::CURRENT_ROLE,
        122u16 => Keyword::CURRENT_ROW,
        123u16 => Keyword::CURRENT_SCHEMA,
        124u16 => Keyword::CURRENT_TIME,
        125u16 => Keyword::CURRENT_TIMESTAMP,
        126u16 => Keyword::CURRENT_TRANSFORM_GROUP_FOR_TYPE,
        127u16 => Keyword::CURRENT_USER,
        128u16 => Keyword::CURSOR,
        129u16 => Keyword::CURSOR_NAME,
        130u16 => Keyword::CYCLE,
        131u16 => Keyword::DATA,
        132u16 => Keyword::DATE,
        133u16 => Keyword::DATETIME_INTERVAL_CODE,
        134u16 => Keyword::DATETIME_INTERVAL_PRECISION,
        135u16 => Keyword::DAY,
        136u16 => Keyword::DEALLOCATE,
        137u16 => Keyword::DEC,
        138u16 => Keyword::DECFLOAT,
        139u16 => Keyword::DECIMAL,
        140u16 => Keyword::DECLARE,
        141u16 => Keyword::DEFAULT,
        142u16 => Keyword::DEFAULTS,
        143u16 => Keyword::DEFERRABLE,
        144u16 => Keyword::DEFERRED,
        145u16 => Keyword::DEFINE,
        146u16 => Keyword::DEFINED,
        147u16 => Keyword::DEFINER,
        148u16 => Keyword::DEGREE,
        149u16 => Keyword::DELETE,
        _ => Keyword::CONSTRUCTOR,
    }
}

/// Entries 150..200 of the keyword table.
pub open spec fn spec_keyword_at_3(i: u16) -> Keyword {
    match i {
        150u16 => Keyword::DENSE_RANK,
        151u16 => Keyword::DEPTH,
        152u16 => Keyword::DEREF,
        153u16 => Keyword::DERIVED,
        154u16 => Keyword::DESC,
        155u16 => Keyword::DESCRIBE,
        156u16 => Keyword::DESCRIBE_CATALOG,
        157u16 => Keyword::DESCRIBE_NAME,
        158u16 => Keyword::DESCRIBE_PROCEDURE_SPECIFIC_CATALOG,
        159u16 => Keyword::DESCRIBE_PROCEDURE_SPECIFIC_NAME,
        160u16 => Keyword::DESCRIBE_PROCEDURE_SPECIFIC_SCHEMA,
        161u16 => Keyword::DESCRIBE_SCHEMA,
        162u16 => Keyword::DESCRIPTOR,
        163u16 => Keyword::DETERMINISTIC,
        164u16 => Keyword::DIAGNOSTICS,
        165u16 => Keyword::DISCONNECT,
        166u16 => Keyword::DISPATCH,
        167u16 => Keyword::DISTINCT,
        168u16 => Keyword::DOMAIN,
        169u16 => Keyword::DOUBLE,
        170u16 => Keyword::DROP,
        171u16 => Keyword::DYNAMIC,
        172u16 => Keyword::DYNAMIC_FUNCTION,
        173u16 => Keyword::DYNAMIC_FUNCTION_CODE,
        174u16 => Keyword::EACH,
        175u16 => Keyword::ELEMENT,
        176u16 => Keyword::ELSE,
        177u16 => Keyword::EMPTY,
        178u16 => Keyword::ENCODING,
        179u16 => Keyword::END,
        180u16 => Keyword::END_FRAME,
        181u16 => Keyword::END_PARTITION,
        182u16 => Keyword::ENFORCED,
        183u16 => Keyword::EQUALS,
        184u16 => Keyword::ERROR,
        185u16 => Keyword::ESCAPE,
        186u16 => Keyword::EVERY,
        187u16 => Keyword::EXCEPT,
        188u16 => Keyword::EXCLUDE,
        189u16 => Keyword::EXCLUDING,
        190u16 => Keyword::EXEC,
        191u16 => Keyword::EXECUTE,
        192u16 => Keyword::EXISTS,
        193u16 => Keyword::EXP,
        194u16 => Keyword::EXPRESSION,
        195u16 => Keyword::EXTERNAL,
        196u16 => Keyword::EXTRACT,
        197u16 => Keyword::FALSE,
        198u16 => Keyword::FETCH,
        199u16 => Keyword::FILTER,
        _ => Keyword::DENSE_RANK,
    }
}

/// Entries 200..250 of the keyword table.
pub open spec fn spec_keyword_at_4(i: u16) -> Keyword {
    match i {
        200u16 => Keyword::FINAL,
        201u16 => Keyword::FINISH,
        202u16 => Keyword::FINISH_CATALOG,
        203u16 => Keyword::FINISH_NAME,
        204u16 => Keyword::FINISH_PROCEDURE_SPECIFIC_CATALOG,
        205u16 => Keyword::FINISH_PROCEDURE_SPECIFIC_NAME,
        206u16 => Keyword::FINISH_PROCEDURE_SPECIFIC_SCHEMA,
        207u16 => Keyword::FINISH_SCHEMA,
        208u16 => Keyword::FIRST,
        209u16 => Keyword::FIRST_VALUE,
        210u16 => Keyword::FLAG,
        211u16 => Keyword::FLOAT,
        212u16 => Keyword::FLOOR,
        213u16 => Keyword::FOLLOWING,
        214u16 => Keyword::FOR,
        215u16 => Keyword::FOREIGN,
        216u16 => Keyword::FORMAT,
        217u16 => Keyword::FORTRAN,
        218u16 => Keyword::FOUND,
        219u16 => Keyword::FRAME_ROW,
        220u16 => Keyword::FREE,
        221u16 => Keyword::FROM,
        222u16 => Keyword::FULFILL,
        223u16 => Keyword::FULFILL_CATALOG,
        224u16 => Keyword::FULFILL_NAME,
        225u16 => Keyword::FULFILL_PROCEDURE_SPECIFIC_CATALOG,
        226u16 => Keyword::FULFILL_PROCEDURE_SPECIFIC_NAME,
        227u16 => Keyword::FULFILL_PROCEDURE_SPECIFIC_SCHEMA,
        228u16 => Keyword::FULFILL_SCHEMA,
        229u16 => Keyword::FULL,
        230u16 => Keyword::FUNCTION,
        231u16 => Keyword::FUSION,
        232u16 => Keyword::G,
        233u16 => Keyword::GENERAL,
        234u16 => Keyword::GENERATED,
        235u16 => Keyword::GET,
        236u16 => Keyword::GLOBAL,
        237u16 => Keyword::GO,
        238u16 => Keyword::GOTO,
        239u16 => Keyword::GRANT,
        240u16 => Keyword::GRANTED,
        241u16 => Keyword::GROUP,
        242u16 => Keyword::GROUPING,
        243u16 => Keyword::GROUPS,
        244u16 => Keyword::HAS_PASS_THROUGH_COLUMNS,
        245u16 => Keyword::HAS_PASS_THRU_COLS,
        246u16 => Keyword::HAVING,
        247u16 => Keyword::HIERARCHY,
        248u16 => Keyword::HOLD,
        249u16 => Keyword::HOUR,
        _ => Keyword::FINAL,
    }
}

/// Entries 250..300 of the keyword table.
pub open spec fn spec_keyword_at_5(i: u16) -> Keyword {
    match i {
        250u16 => Keyword::IDENTITY,
        251u16 => Keyword::IGNORE,
        252u16 => Keyword::IMMEDIATE,
        253u16 => Keyword::IMMEDIATELY,
        254u16 => Keyword::IMPLEMENTATION,
        255u16 => Keyword::IN,
        256u16 => Keyword::INCLUDING,
        257u16 => Keyword::INCREMENT,
        258u16 => Keyword::INDICATOR,
        259u16 => Keyword::INITIAL,
        260u16 => Keyword::INITIALLY,
        261u16 => Keyword::INNER,
        262u16 => Keyword::INOUT,
        263u16 => Keyword::INPUT,
        264u16 => Keyword::INSENSITIVE,
        265u16 => Keyword::INSERT,
        266u16 => Keyword::INSTANCE,
        267u16 => Keyword::INSTANTIABLE,
        268u16 => Keyword::INSTEAD,
        269u16 => Keyword::INT,
        270u16 => Keyword::INTEGER,
        271u16 => Keyword::INTERSECT,
        272u16 => Keyword::INTERSECTION,
        273u16 => Keyword::INTERVAL,
        274u16 => Keyword::INTO,
        275u16 => Keyword::INVOKER,
        276u16 => Keyword::IS,
        277u16 => Keyword::ISOLATION,
        278u16 => Keyword::IS_PRUNABLE,
        279u16 => Keyword::JOIN,
        280u16 => Keyword::JSON,
        281u16 => Keyword::JSON_ARRAY,
        282u16 => Keyword::JSON_ARRAYAGG,
        283u16 => Keyword::JSON_EXISTS,
        284u16 => Keyword::JSON_OBJECT,
        285u16 => Keyword::JSON_OBJECTAGG,
        286u16 => Keyword::JSON_QUERY,
        287u16 => Keyword::JSON_TABLE,
        288u16 => Keyword::JSON_TABLE_PRIMITIVE,
        289u16 => Keyword::JSON_VALUE,
        290u16 => Keyword::K,
        291u16 => Keyword::KEEP,
        292u16 => Keyword::KEY,
        293u16 => Keyword::KEY_MEMBER,
        294u16 => Keyword::KEYS,
        295u16 => Keyword::KEY_TYPE,
        296u16 => Keyword::LAG,
        297u16 => Keyword::LANGUAGE,
        298u16 => Keyword::LARGE,
        299u16 => Keyword::LAST,
        _ => Keyword::IDENTITY,
    }
}

/// Entries 300..350 of the keyword table.
pub open spec fn spec_keyword_at_6(i: u16) -> Keyword {
    match i {
        300u16 => Keyword::LAST_VALUE,
        301u16 => Keyword::LATERAL,
        302u16 => Keyword::LEAD,
        303u16 => Keyword::LEADING,
        304u16 => Keyword::LEFT,
        305u16 => Keyword::LENGTH,
        306u16 => Keyword::LEVEL,
        307u16 => Keyword::LIKE,
        308u16 => Keyword::LIKE_REGEX,
        309u16 => Keyword::LISTAGG,
        310u16 => Keyword::LN,
        311u16 => Keyword::LOCAL,
        312u16 => Keyword::LOCALTIME,
        313u16 => Keyword::LOCALTIMESTAMP,
        314u16 => Keyword::LOCATOR,
        315u16 => Keyword::LOG,
        316u16 => Keyword::LOG10,
        317u16 => Keyword::LOWER,
        318u16 => Keyword::M,
        319u16 => Keyword::MAP,
        320u16 => Keyword::MATCH,
        321u16 => Keyword::MATCHED,
        322u16 => Keyword::MATCHES,
        323u16 => Keyword::MATCH_NUMBER,
        324u16 => Keyword::MATCH_RECOGNIZE,
        325u16 => Keyword::MAX,
        326u16 => Keyword::MAXVALUE,
        327u16 => Keyword::MEMBER,
        328u16 => Keyword::MERGE,
        329u16 => Keyword::MESSAGE_LENGTH,
        330u16 => Keyword::MESSAGE_OCTET_LENGTH,
        331u16 => Keyword::MESSAGE_TEXT,
        332u16 => Keyword::METHOD,
        333u16 => Keyword::MIN,
        334u16 => Keyword::MINUTE,
        335u16 => Keyword::MINVALUE,
        336u16 => Keyword::MOD,
        337u16 => Keyword::MODIFIES,
        338u16 => Keyword::MODULE,
        339u16 => Keyword::MONTH,
        340u16 => Keyword::MORE,
        341u16 => Keyword::MULTISET,
        342u16 => Keyword::MUMPS,
        343u16 => Keyword::NAME,
        344u16 => Keyword::NAMES,
        345u16 => Keyword::NATIONAL,
        346u16 => Keyword::NATURAL,
        347u16 => Keyword::NCHAR,
        348u16 => Keyword::NCLOB,
        349u16 => Keyword::NESTED,
        _ => Keyword::LAST_VALUE,
    }
}

/// Entries 350..400 of the keyword table.
pub open spec fn spec_keyword_at_7(i: u16) -> Keyword {
    match i {
        350u16 => Keyword::NESTING,
        351u16 => Keyword::NEW,
        352u16 => Keyword::NEXT,
        353u16 => Keyword::NFC,
        354u16 => Keyword::NFD,
        355u16 => Keyword::NFKC,
        356u16 => Keyword::NFKD,
        357u16 => Keyword::NO,
        358u16 => Keyword::NONE,
        359u16 => Keyword::NORMALIZE,
        360u16 => Keyword::NORMALIZED,
        361u16 => Keyword::NOT,
        362u16 => Keyword::NTH_VALUE,
        363u16 => Keyword::NTILE,
        364u16 => Keyword::NULL,
        365u16 => Keyword::NULLABLE,
        366u16 => Keyword::NULLIF,
        367u16 => Keyword::NULLS,
        368u16 => Keyword::NUMBER,
        369u16 => Keyword::NUMERIC,
        370u16 => Keyword::OBJECT,
        371u16 => Keyword::OCCURRENCES_REGEX,
        372u16 => Keyword::OCTET_LENGTH,
        373u16 => Keyword::OCTETS,
        374u16 => Keyword::OF,
        375u16 => Keyword::OFFSET,
        376u16 => Keyword::OLD,
        377u16 => Keyword::OMIT,
        378u16 => Keyword::ON,
        379u16 => Keyword::ONE,
        380u16 => Keyword::ONLY,
        381u16 => Keyword::OPEN,
        382u16 => Keyword::OPTION,
        383u16 => Keyword::OPTIONS,
        384u16 => Keyword::OR,
        385u16 => Keyword::ORDER,
        386u16 => Keyword::ORDERING,
        387u16 => Keyword::ORDINALITY,
        388u16 => Keyword::OTHERS,
        389u16 => Keyword::OUT,
        390u16 => Keyword::OUTER,
        391u16 => Keyword::OUTPUT,
        392u16 => Keyword::OVER,
        393u16 => Keyword::OVERFLOW,
        394u16 => Keyword::OVERLAPS,
        395u16 => Keyword::OVERLAY,
        396u16 => Keyword::OVERRIDING,
        397u16 => Keyword::P,
        398u16 => Keyword::PAD,
        399u16 => Keyword::PARAMETER,
        _ => Keyword::NESTING,
    }
}

/// Entries 400..450 of the keyword table.
pub open spec fn spec_keyword_at_8(i: u16) -> Keyword {
    match i {
        400u16 => Keyword::PARAMETER_MODE,
        401u16 => Keyword::PARAMETER_NAME,
        402u16 => Keyword::PARAMETER_ORDINAL_POSITION,
        403u16 => Keyword::PARAMETER_SPECIFIC_CATALOG,
        404u16 => Keyword::PARAMETER_SPECIFIC_NAME,
        405u16 => Keyword::PARAMETER_SPECIFIC_SCHEMA,
        406u16 => Keyword::PARTIAL,
        407u16 => Keyword::PARTITION,
        408u16 => Keyword::PASCAL,
        409u16 => Keyword::PASS,
        410u16 => Keyword::PASSING,
        411u16 => Keyword::PAST,
        412u16 => Keyword::PATH,
        413u16 => Keyword::PATTERN,
        414u16 => Keyword::PER,
        415u16 => Keyword::PERCENT,
        416u16 => Keyword::PERCENTILE_CONT,
        417u16 => Keyword::PERCENTILE_DISC,
        418u16 => Keyword::PERCENT_RANK,
        419u16 => Keyword::PERIOD,
        420u16 => Keyword::PLACING,
        421u16 => Keyword::PLAN,
        422u16 => Keyword::PLI,
        423u16 => Keyword::PORTION,
        424u16 => Keyword::POSITION,
        425u16 => Keyword::POSITION_REGEX,
        426u16 => Keyword::POWER,
        427u16 => Keyword::PRECEDES,
        428u16 => Keyword::PRECEDING,
        429u16 => Keyword::PRECISION,
        430u16 => Keyword::PREPARE,
        431u16 => Keyword::PRESERVE,
        432u16 => Keyword::PRIMARY,
        433u16 => Keyword::PRIOR,
        434u16 => Keyword::PRIVATE,
        435u16 => Keyword::PRIVATE_PARAMETERS,
        436u16 => Keyword::PRIVATE_PARAMS_S,
        437u16 => Keyword::PRIVILEGES,
        438u16 => Keyword::PROCEDURE,
        439u16 => Keyword::PRUNE,
        440u16 => Keyword::PTF,
        441u16 => Keyword::PUBLIC,
        442u16 => Keyword::QUOTES,
        443u16 => Keyword::RANGE,
        444u16 => Keyword::RANK,
        445u16 => Keyword::READ,
        446u16 => Keyword::READS,
        447u16 => Keyword::REAL,
        448u16 => Keyword::RECURSIVE,
        449u16 => Keyword::REF,
        _ => Keyword::PARAMETER_MODE,
    }
}

/// Entries 450..500 of the keyword table.
pub open spec fn spec_keyword_at_9(i: u16) -> Keyword {
    match i {
        450u16 => Keyword::REFERENCES,
        451u16 => Keyword::REFERENCING,
        452u16 => Keyword::REGR_AVGX,
        453u16 => Keyword::REGR_AVGY,
        454u16 => Keyword::REGR_COUNT,
        455u16 => Keyword::REGR_INTERCEPT,
        456u16 => Keyword::REGR_R2,
        457u16 => Keyword::REGR_SLOPE,
        458u16 => Keyword::REGR_SXX,
        459u16 => Keyword::REGR_SXY,
        460u16 => Keyword::REGR_SYY,
        461u16 => Keyword::RELATIVE,
        462u16 => Keyword::RELEASE,
        463u16 => Keyword::REPEATABLE,
        464u16 => Keyword::RESPECT,
        465u16 => Keyword::RESTART,
        466u16 => Keyword::RESTRICT,
        467u16 => Keyword::RESULT,
        468u16 => Keyword::RET_ONLY_PASS_THRU,
        469u16 => Keyword::RETURN,
        470u16 => Keyword::RETURNED_CARDINALITY,
        471u16 => Keyword::RETURNED_LENGTH,
        472u16 => Keyword::RETURNED_OCTET_LENGTH,
        473u16 => Keyword::RETURNED_SQLSTATE,
        474u16 => Keyword::RETURNING,
        475u16 => Keyword::RETURNS,
        476u16 => Keyword::RETURNS_ONLY_PASS_THROUGH,
        477u16 => Keyword::REVOKE,
        478u16 => Keyword::RIGHT,
        479u16 => Keyword::ROLE,
        480u16 => Keyword::ROLLBACK,
        481u16 => Keyword::ROLLUP,
        482u16 => Keyword::ROUTINE,
        483u16 => Keyword::ROUTINE_CATALOG,
        484u16 => Keyword::ROUTINE_NAME,
        485u16 => Keyword::ROUTINE_SCHEMA,
        486u16 => Keyword::ROW,
        487u16 => Keyword::ROW_COUNT,
        488u16 => Keyword::ROW_NUMBER,
        489u16 => Keyword::ROWS,
        490u16 => Keyword::RUNNING,
        491u16 => Keyword::SAVEPOINT,
        492u16 => Keyword::SCALAR,
        493u16 => Keyword::SCALE,
        494u16 => Keyword::SCHEMA,
        495u16 => Keyword::SCHEMA_NAME,
        496u16 => Keyword::SCOPE,
        497u16 => Keyword::SCOPE_CATALOG,
        498u16 => Keyword::SCOPE_NAME,
        499u16 => Keyword::SCOPE_SCHEMA,
        _ => Keyword::REFERENCES,
    }
}

/// Entries 500..550 of the keyword table.
pub open spec fn spec_keyword_at_10(i: u16) -> Keyword {
    match i {
        500u16 => Keyword::SCROLL,
        501u16 => Keyword::SEARCH,
        502u16 => Keyword::SECOND,
        503u16 => Keyword::SECTION,
        504u16 => Keyword::SECURITY,
        505u16 => Keyword::SEEK,
        506u16 => Keyword::SELECT,
        507u16 => Keyword::SELF,
        508u16 => Keyword::SENSITIVE,
        509u16 => Keyword::SEQUENCE,
        510u16 => Keyword::SERIALIZABLE,
        511u16 => Keyword::SERVER_NAME,
        512u16 => Keyword::SESSION,
        513u16 => Keyword::SESSION_USER,
        514u16 => Keyword::SET,
        515u16 => Keyword::SETS,
        516u16 => Keyword::SHOW,
        517u16 => Keyword::SIMILAR,
        518u16 => Keyword::SIMPLE,
        519u16 => Keyword::SIN,
        520u16 => Keyword::SINH,
        521u16 => Keyword::SIZE,
        522u16 => Keyword::SKIP,
        523u16 => Keyword::SMALLINT,
        524u16 => Keyword::SOME,
        525u16 => Keyword::SOURCE,
        526u16 => Keyword::SPACE,
        527u16 => Keyword::SPECIFIC,
        528u16 => Keyword::SPECIFIC_NAME,
        529u16 => Keyword::SPECIFICTYPE,
        530u16 => Keyword::SQL,
        531u16 => Keyword::SQLEXCEPTION,
        532u16 => Keyword::SQLSTATE,
        533u16 => Keyword::SQLWARNING,
        534u16 => Keyword::SQRT,
        535u16 => Keyword::START,
        536u16 => Keyword::START_CATALOG,
        537u16 => Keyword::START_NAME,
        538u16 => Keyword::START_PROCEDURE_SPECIFIC_CATALOG,
        539u16 => Keyword::START_PROCEDURE_SPECIFIC_NAME,
        540u16 => Keyword::START_PROCEDURE_SPECIFIC_SCHEMA,
        541u16 => Keyword::START_SCHEMA,
        542u16 => Keyword::STATE,
        543u16 => Keyword::STATEMENT,
        544u16 => Keyword::STATIC,
        545u16 => Keyword::STDDEV_POP,
        546u16 => Keyword::STDDEV_SAMP,
        547u16 => Keyword::STRING,
        548u16 => Keyword::STRUCTURE,
        549u16 => Keyword::STYLE,
        _ => Keyword::SCROLL,
    }
}

/// Entries 550..600 of the keyword table.
pub open spec fn spec_keyword_at_11(i: u16) -> Keyword {
    match i {
        550u16 => Keyword::SUBCLASS_ORIGIN,
        551u16 => Keyword::SUBMULTISET,
        552u16 => Keyword::SUBSET,
        553u16 => Keyword::SUBSTRING,
        554u16 => Keyword::SUBSTRING_REGEX,
        555u16 => Keyword::SUCCEEDS,
        556u16 => Keyword::SUM,
        557u16 => Keyword::SYMMETRIC,
        558u16 => Keyword::SYSTEM,
        559u16 => Keyword::SYSTEM_TIME,
        560u16 => Keyword::SYSTEM_USER,
        561u16 => Keyword::T,
        562u16 => Keyword::TABLE,
        563u16 => Keyword::TABLE_NAME,
        564u16 => Keyword::TABLESAMPLE,
        565u16 => Keyword::TABLE_SEMANTICS,
        566u16 => Keyword::TAN,
        567u16 => Keyword::TANH,
        568u16 => Keyword::TEMPORARY,
        569u16 => Keyword::THEN,
        570u16 => Keyword::THROUGH,
        571u16 => Keyword::TIES,
        572u16 => Keyword::TIME,
        573u16 => Keyword::TIMESTAMP,
        574u16 => Keyword::TIMEZONE_HOUR,
        575u16 => Keyword::TIMEZONE_MINUTE,
        576u16 => Keyword::TO,
        577u16 => Keyword::TOP_LEVEL_COUNT,
        578u16 => Keyword::TRAILING,
        579u16 => Keyword::TRANSACTION,
        580u16 => Keyword::TRANSACTION_ACTIVE,
        581u16 => Keyword::TRANSACTIONS_COMMITTED,
        582u16 => Keyword::TRANSACTIONS_ROLLED_BACK,
        583u16 => Keyword::TRANSFORM,
        584u16 => Keyword::TRANSFORMS,
        585u16 => Keyword::TRANSLATE,
        586u16 => Keyword::TRANSLATE_REGEX,
        587u16 => Keyword::TRANSLATION,
        588u16 => Keyword::TREAT,
        589u16 => Keyword::TRIGGER,
        590u16 => Keyword::TRIGGER_CATALOG,
        591u16 => Keyword::TRIGGER_NAME,
        592u16 => Keyword::TRIGGER_SCHEMA,
        593u16 => Keyword::TRIM,
        594u16 => Keyword::TRIM_ARRAY,
        595u16 => Keyword::TRUE,
        596u16 => Keyword::TRUNCATE,
        597u16 => Keyword::TYPE,
        598u16 => Keyword::UESCAPE,
        599u16 => Keyword::UNBOUNDED,
        _ => Keyword::SUBCLASS_ORIGIN,
    }
}

/// Entries 600..651 of the keyword table.
pub open spec fn spec_keyword_at_12(i: u16) -> Keyword {
    match i {
        600u16 => Keyword::UNCOMMITTED,
        601u16 => Keyword::UNCONDITIONAL,
        602u16 => Keyword::UNDER,
        603u16 => Keyword::UNION,
        604u16 => Keyword::UNIQUE,
        605u16 => Keyword::UNKNOWN,
        606u16 => Keyword::UNNAMED,
        607u16 => Keyword::UNNEST,
        608u16 => Keyword::UPDATE,
        609u16 => Keyword::UPPER,
        610u16 => Keyword::USAGE,
        611u16 => Keyword::USER,
        612u16 => Keyword::USER_DEFINED_TYPE_CATALOG,
        613u16 => Keyword::USER_DEFINED_TYPE_CODE,
        614u16 => Keyword::USER_DEFINED_TYPE_NAME,
        615u16 => Keyword::USER_DEFINED_TYPE_SCHEMA,
        616u16 => Keyword::USING,
        617u16 => Keyword::UTF16,
        618u16 => Keyword::UTF32,
        619u16 => Keyword::UTF8,
        620u16 => Keyword::VALUE,
        621u16 => Keyword::VALUE_OF,
        622u16 => Keyword::VALUES,
        623u16 => Keyword::VARBINARY,
        624u16 => Keyword::VARCHAR,
        625u16 => Keyword::VAR_POP,
        626u16 => Keyword::VAR_SAMP,
        627u16 => Keyword::VARYING,
        628u16 => Keyword::VERSIONING,
        629u16 => Keyword::VIEW,
        630u16 => Keyword::WHEN,
        631u16 => Keyword::WHENEVER,
        632u16 => Keyword::WHERE,
        633u16 => Keyword::WIDTH_BUCKET,
        634u16 => Keyword::WINDOW,
        635u16 => Keyword::WITH,
        636u16 => Keyword::WITHIN,
        637u16 => Keyword::WITHOUT,
        638u16 => Keyword::WORK,
        639u16 => Keyword::WRAPPER,
        640u16 => Keyword::WRITE,
        641u16 => Keyword::YEAR,
        642u16 => Keyword::ZONE,
        643u16 => Keyword::DATABASE,
        644u16 => Keyword::DATETIME,
        645u16 => Keyword::ILIKE,
        646u16 => Keyword::LIMIT,
        647u16 => Keyword::REPLACE,
        648u16 => Keyword::XOR,
        649u16 => Keyword::IF,
        650u16 => Keyword::INDEX,
        _ => Keyword::UNCOMMITTED,
    }
}

/// The keyword at position `i` of the keyword table.
pub open spec fn spec_keyword_at(i: u16) -> Keyword
    recommends
        i < KEYWORD_COUNT,
{
    if i < 50 {
        spec_keyword_at_0(i)
    } else if i < 100 {
        spec_keyword_at_1(i)
    } else if i < 150 {
        spec_keyword_at_2(i)
    } else if i < 200 {
        spec_keyword_at_3(i)
    } else if i < 250 {
        spec_keyword_at_4(i)
    } else if i < 300 {
        spec_keyword_at_5(i)
    } else if i < 350 {
        spec_keyword_at_6(i)
    } else if i < 400 {
        spec_keyword_at_7(i)
    } else if i < 450 {
        spec_keyword_at_8(i)
    } else if i < 500 {
        spec_keyword_at_9(i)
    } else if i < 550 {
        spec_keyword_at_10(i)
    } else if i < 600 {
        spec_keyword_at_11(i)
    } else {
        spec_keyword_at_12(i)
    }
}

/// Canonical text of the keywords of group 0.
pub open spec fn spec_keyword_name_0(k: Keyword) -> Seq<char> {
    match k {
        Keyword::A => "A"@,
        Keyword::ABS => "ABS"@,
        Keyword::ABSOLUTE => "ABSOLUTE"@,
        Keyword::ACOS => "ACOS"@,
        Keyword::ACTION => "ACTION"@,
        Keyword::ADA => "ADA"@,
        Keyword::ADD => "ADD"@,
        Keyword::ADMIN => "ADMIN"@,
        Keyword::AFTER => "AFTER"@,
        Keyword::ALL => "ALL"@,
        Keyword::ALLOCATE => "ALLOCATE"@,
        Keyword::ALTER => "ALTER"@,
        Keyword::ALWAYS => "ALWAYS"@,
        Keyword::AND => "AND"@,
        Keyword::ANY => "ANY"@,
        Keyword::ARE => "ARE"@,
        Keyword::ARRAY => "ARRAY"@,
        Keyword::ARRAY_AGG => "ARRAY_AGG"@,
        Keyword::ARRAY_MAX_CARDINALITY => "ARRAY_MAX_CARDINALITY"@,
        Keyword::AS => "AS"@,
        Keyword::ASC => "ASC"@,
        Keyword::ASENSITIVE => "ASENSITIVE"@,
        Keyword::ASIN => "ASIN"@,
        Keyword::ASSERTION => "ASSERTION"@,
        Keyword::ASSIGNMENT => "ASSIGNMENT"@,
        Keyword::ASYMMETRIC => "ASYMMETRIC"@,
        Keyword::AT => "AT"@,
        Keyword::ATAN => "ATAN"@,
        Keyword::ATOMIC => "ATOMIC"@,
        Keyword::ATTRIBUTE => "ATTRIBUTE"@,
        Keyword::ATTRIBUTES => "ATTRIBUTES"@,
        Keyword::AUTHORIZATION => "AUTHORIZATION"@,
        Keyword::AVG => "AVG"@,
        Keyword::BEFORE => "BEFORE"@,
        Keyword::BEGIN => "BEGIN"@,
        Keyword::BEGIN_FRAME => "BEGIN_FRAME"@,
        Keyword::BEGIN_PARTITION => "BEGIN_PARTITION"@,
        Keyword::BERNOULLI => "BERNOULLI"@,
        Keyword::BETWEEN => "BETWEEN"@,
        Keyword::BIGINT => "BIGINT"@,
        Keyword::BINARY => "BINARY"@,
        Keyword::BLOB => "BLOB"@,
        Keyword::BOOLEAN => "BOOLEAN"@,
        Keyword::BOTH => "BOTH"@,
        Keyword::BREADTH => "BREADTH"@,
        Keyword::BY => "BY"@,
        Keyword::C => "C"@,
        Keyword::CALL => "CALL"@,
        Keyword::CALLED => "CALLED"@,
        Keyword::CARDINALITY => "CARDINALITY"@,
        _ => Seq::empty(),
    }
}

/// Canonical text of the keywords of group 1.
pub open spec fn spec_keyword_name_1(k: Keyword) -> Seq<char> {
    match k {
        Keyword::CASCADE => "CASCADE"@,
        Keyword::CASCADED => "CASCADED"@,
        Keyword::CASE => "CASE"@,
        Keyword::CAST => "CAST"@,
        Keyword::CATALOG => "CATALOG"@,
        Keyword::CATALOG_NAME => "CATALOG_NAME"@,
        Keyword::CEIL => "CEIL"@,
        Keyword::CEILING => "CEILING"@,
        Keyword::CHAIN => "CHAIN"@,
        Keyword::CHAINING => "CHAINING"@,
        Keyword::CHAR => "CHAR"@,
        Keyword::CHARACTER => "CHARACTER"@,
        Keyword::CHARACTERISTICS => "CHARACTERISTICS"@,
        Keyword::CHARACTER_LENGTH => "CHARACTER_LENGTH"@,
        Keyword::CHARACTERS => "CHARACTERS"@,
        Keyword::CHARACTER_SET_CATALOG => "CHARACTER_SET_CATALOG"@,
        Keyword::CHARACTER_SET_NAME => "CHARACTER_SET_NAME"@,
        Keyword::CHARACTER_SET_SCHEMA => "CHARACTER_SET_SCHEMA"@,
        Keyword::CHAR_LENGTH => "CHAR_LENGTH"@,
        Keyword::CHECK => "CHECK"@,
        Keyword::CLASSIFIER => "CLASSIFIER"@,
        Keyword::CLASS_ORIGIN => "CLASS_ORIGIN"@,
        Keyword::CLOB => "CLOB"@,
        Keyword::CLOSE => "CLOSE"@,
        Keyword::COALESCE => "COALESCE"@,
        Keyword::COBOL => "COBOL"@,
        Keyword::COLLATE => "COLLATE"@,
        Keyword::COLLATION => "COLLATION"@,
        Keyword::COLLATION_CATALOG => "COLLATION_CATALOG"@,
        Keyword::COLLATION_NAME => "COLLATION_NAME"@,
        Keyword::COLLATION_SCHEMA => "COLLATION_SCHEMA"@,
        Keyword::COLLECT => "COLLECT"@,
        Keyword::COLUMN => "COLUMN"@,
        Keyword::COLUMN_NAME => "COLUMN_NAME"@,
        Keyword::COLUMNS => "COLUMNS"@,
        Keyword::COMMAND_FUNCTION => "COMMAND_FUNCTION"@,
        Keyword::COMMAND_FUNCTION_CODE => "COMMAND_FUNCTION_CODE"@,
        Keyword::COMMIT => "COMMIT"@,
        Keyword::COMMITTED => "COMMITTED"@,
        Keyword::CONDITION => "CONDITION"@,
        Keyword::CONDITIONAL => "CONDITIONAL"@,
        Keyword::CONDITION_NUMBER => "CONDITION_NUMBER"@,
        Keyword::CONNECT => "CONNECT"@,
        Keyword::CONNECTION => "CONNECTION"@,
        Keyword::CONNECTION_NAME => "CONNECTION_NAME"@,
        Keyword::CONSTRAINT => "CONSTRAINT"@,
        Keyword::CONSTRAINT_CATALOG => "CONSTRAINT_CATALOG"@,
        Keyword::CONSTRAINT_NAME => "CONSTRAINT_NAME"@,
        Keyword::CONSTRAINTS => "CONSTRAINTS"@,
        Keyword::CONSTRAINT_SCHEMA => "CONSTRAINT_SCHEMA"@,
        _ => Seq::empty(),
    }
}

/// Canonical text of the keywords of group 2.
pub open spec fn spec_keyword_name_2(k: Keyword) -> Seq<char> {
    match k {
        Keyword::CONSTRUCTOR => "CONSTRUCTOR"@,
        Keyword::CONTAINS => "CONTAINS"@,
        Keyword::CONTINUE => "CONTINUE"@,
        Keyword::CONVERT => "CONVERT"@,
        Keyword::COPY => "COPY"@,
        Keyword::CORR => "CORR"@,
        Keyword::CORRESPONDING => "CORRESPONDING"@,
        Keyword::COS => "COS"@,
        Keyword::COSH => "COSH"@,
        Keyword::COUNT => "COUNT"@,
        Keyword::COVAR_POP => "COVAR_POP"@,
        Keyword::COVAR_SAMP => "COVAR_SAMP"@,
        Keyword::CREATE => "CREATE"@,
        Keyword::CROSS => "CROSS"@,
        Keyword::CUBE => "CUBE"@,
        Keyword::CUME_DIST => "CUME_DIST"@,
        Keyword::CURRENT => "CURRENT"@,
        Keyword::CURRENT_CATALOG => "CURRENT_CATALOG"@,
        Keyword::CURRENT_DATE => "CURRENT_DATE"@,
        Keyword::CURRENT_DEFAULT_TRANSFORM_GROUP => "CURRENT_DEFAULT_TRANSFORM_GROUP"@,
        Keyword::CURRENT_PATH => "CURRENT_PATH"@,
        Keyword::CURRENT_ROLE => "CURRENT_ROLE"@,
        Keyword::CURRENT_ROW => "CURRENT_ROW"@,
        Keyword::CURRENT_SCHEMA => "CURRENT_SCHEMA"@,
        Keyword::CURRENT_TIME => "CURRENT_TIME"@,
        Keyword::CURRENT_TIMESTAMP => "CURRENT_TIMESTAMP"@,
        Keyword::CURRENT_TRANSFORM_GROUP_FOR_TYPE => "CURRENT_TRANSFORM_GROUP_FOR_TYPE"@,
        Keyword::CURRENT_USER => "CURRENT_USER"@,
        Keyword::CURSOR => "CURSOR"@,
        Keyword::CURSOR_NAME => "CURSOR_NAME"@,
        Keyword::CYCLE => "CYCLE"@,
        Keyword::DATA => "DATA"@,
        Keyword::DATE => "DATE"@,
        Keyword::DATETIME_INTERVAL_CODE => "DATETIME_INTERVAL_CODE"@,
        Keyword::DATETIME_INTERVAL_PRECISION => "DATETIME_INTERVAL_PRECISION"@,
        Keyword::DAY => "DAY"@,
        Keyword::DEALLOCATE => "DEALLOCATE"@,
        Keyword::DEC => "DEC"@,
        Keyword::DECFLOAT => "DECFLOAT"@,
        Keyword::DECIMAL => "DECIMAL"@,
        Keyword::DECLARE => "DECLARE"@,
        Keyword::DEFAULT => "DEFAULT"@,
        Keyword::DEFAULTS => "DEFAULTS"@,
        Keyword::DEFERRABLE => "DEFERRABLE"@,
        Keyword::DEFERRED => "DEFERRED"@,
        Keyword::DEFINE => "DEFINE"@,
        Keyword::DEFINED => "DEFINED"@,
        Keyword::DEFINER => "DEFINER"@,
        Keyword::DEGREE => "DEGREE"@,
        Keyword::DELETE => "DELETE"@,
        _ => Seq::empty(),
    }
}

/// Canonical text of the keywords of group 3.
pub open spec fn spec_keyword_name_3(k: Keyword) -> Seq<char> {
    match k {
        Keyword::DENSE_RANK => "DENSE_RANK"@,
        Keyword::DEPTH => "DEPTH"@,
        Keyword::DEREF => "DEREF"@,
        Keyword::DERIVED => "DERIVED"@,
        Keyword::DESC => "DESC"@,
        Keyword::DESCRIBE => "DESCRIBE"@,
        Keyword::DESCRIBE_CATALOG => "DESCRIBE_CATALOG"@,
        Keyword::DESCRIBE_NAME => "DESCRIBE_NAME"@,
        Keyword::DESCRIBE_PROCEDURE_SPECIFIC_CATALOG => "DESCRIBE_PROCEDURE_SPECIFIC_CATALOG"@,
        Keyword::DESCRIBE_PROCEDURE_SPECIFIC_NAME => "DESCRIBE_PROCEDURE_SPECIFIC_NAME"@,
        Keyword::DESCRIBE_PROCEDURE_SPECIFIC_SCHEMA => "DESCRIBE_PROCEDURE_SPECIFIC_SCHEMA"@,
        Keyword::DESCRIBE_SCHEMA => "DESCRIBE_SCHEMA"@,
        Keyword::DESCRIPTOR => "DESCRIPTOR"@,
        Keyword::DETERMINISTIC => "DETERMINISTIC"@,
        Keyword::DIAGNOSTICS => "DIAGNOSTICS"@,
        Keyword::DISCONNECT => "DISCONNECT"@,
        Keyword::DISPATCH => "DISPATCH"@,
        Keyword::DISTINCT => "DISTINCT"@,
        Keyword::DOMAIN => "DOMAIN"@,
        Keyword::DOUBLE => "DOUBLE"@,
        Keyword::DROP => "DROP"@,
        Keyword::DYNAMIC => "DYNAMIC"@,
        Keyword::DYNAMIC_FUNCTION => "DYNAMIC_FUNCTION"@,
        Keyword::DYNAMIC_FUNCTION_CODE => "DYNAMIC_FUNCTION_CODE"@,
        Keyword::EACH => "EACH"@,
        Keyword::ELEMENT => "ELEMENT"@,
        Keyword::ELSE => "ELSE"@,
        Keyword::EMPTY => "EMPTY"@,
        Keyword::ENCODING => "ENCODING"@,
        Keyword::END => "END"@,
        Keyword::END_FRAME => "END_FRAME"@,
        Keyword::END_PARTITION => "END_PARTITION"@,
        Keyword::ENFORCED => "ENFORCED"@,
        Keyword::EQUALS => "EQUALS"@,
        Keyword::ERROR => "ERROR"@,
        Keyword::ESCAPE => "ESCAPE"@,
        Keyword::EVERY => "EVERY"@,
        Keyword::EXCEPT => "EXCEPT"@,
        Keyword::EXCLUDE => "EXCLUDE"@,
        Keyword::EXCLUDING => "EXCLUDING"@,
        Keyword::EXEC => "EXEC"@,
        Keyword::EXECUTE => "EXECUTE"@,
        Keyword::EXISTS => "EXISTS"@,
        Keyword::EXP => "EXP"@,
        Keyword::EXPRESSION => "EXPRESSION"@,
        Keyword::EXTERNAL => "EXTERNAL"@,
        Keyword::EXTRACT => "EXTRACT"@,
        Keyword::FALSE => "FALSE"@,
        Keyword::FETCH => "FETCH"@,
        Keyword::FILTER => "FILTER"@,
        _ => Seq::empty(),
    }
}

/// Canonical text of the keywords of group 4.
pub open spec fn spec_keyword_name_4(k: Keyword) -> Seq<char> {
    match k {
        Keyword::FINAL => "FINAL"@,
        Keyword::FINISH => "FINISH"@,
        Keyword::FINISH_CATALOG => "FINISH_CATALOG"@,
        Keyword::FINISH_NAME => "FINISH_NAME"@,
        Keyword::FINISH_PROCEDURE_SPECIFIC_CATALOG => "FINISH_PROCEDURE_SPECIFIC_CATALOG"@,
        Keyword::FINISH_PROCEDURE_SPECIFIC_NAME => "FINISH_PROCEDURE_SPECIFIC_NAME"@,
        Keyword::FINISH_PROCEDURE_SPECIFIC_SCHEMA => "FINISH_PROCEDURE_SPECIFIC_SCHEMA"@,
        Keyword::FINISH_SCHEMA => "FINISH_SCHEMA"@,
        Keyword::FIRST => "FIRST"@,
        Keyword::FIRST_VALUE => "FIRST_VALUE"@,
        Keyword::FLAG => "FLAG"@,
        Keyword::FLOAT => "FLOAT"@,
        Keyword::FLOOR => "FLOOR"@,
        Keyword::FOLLOWING => "FOLLOWING"@,
        Keyword::FOR => "FOR"@,
        Keyword::FOREIGN => "FOREIGN"@,
        Keyword::FORMAT => "FORMAT"@,
        Keyword::FORTRAN => "FORTRAN"@,
        Keyword::FOUND => "FOUND"@,
        Keyword::FRAME_ROW => "FRAME_ROW"@,
        Keyword::FREE => "FREE"@,
        Keyword::FROM => "FROM"@,
        Keyword::FULFILL => "FULFILL"@,
        Keyword::FULFILL_CATALOG => "FULFILL_CATALOG"@,
        Keyword::FULFILL_NAME => "FULFILL_NAME"@,
        Keyword::FULFILL_PROCEDURE_SPECIFIC_CATALOG => "FULFILL_PROCEDURE_SPECIFIC_CATALOG"@,
        Keyword::FULFILL_PROCEDURE_SPECIFIC_NAME => "FULFILL_PROCEDURE_SPECIFIC_NAME"@,
        Keyword::FULFILL_PROCEDURE_SPECIFIC_SCHEMA => "FULFILL_PROCEDURE_SPECIFIC_SCHEMA"@,
        Keyword::FULFILL_SCHEMA => "FULFILL_SCHEMA"@,
        Keyword::FULL => "FULL"@,
        Keyword::FUNCTION => "FUNCTION"@,
        Keyword::FUSION => "FUSION"@,
        Keyword::G => "G"@,
        Keyword::GENERAL => "GENERAL"@,
        Keyword::GENERATED => "GENERATED"@,
        Keyword::GET => "GET"@,
        Keyword::GLOBAL => "GLOBAL"@,
        Keyword::GO => "GO"@,
        Keyword::GOTO => "GOTO"@,
        Keyword::GRANT => "GRANT"@,
        Keyword::GRANTED => "GRANTED"@,
        Keyword::GROUP => "GROUP"@,
        Keyword::GROUPING => "GROUPING"@,
        Keyword::GROUPS => "GROUPS"@,
        Keyword::HAS_PASS_THROUGH_COLUMNS => "HAS_PASS_THROUGH_COLUMNS"@,
        Keyword::HAS_PASS_THRU_COLS => "HAS_PASS_THRU_COLS"@,
        Keyword::HAVING => "HAVING"@,
        Keyword::HIERARCHY => "HIERARCHY"@,
        Keyword::HOLD => "HOLD"@,
        Keyword::HOUR => "HOUR"@,
        _ => Seq::empty(),
    }
}

/// Canonical text of the keywords of group 5.
pub open spec fn spec_keyword_name_5(k: Keyword) -> Seq<char> {
    match k {
        Keyword::IDENTITY => "IDENTITY"@,
        Keyword::IGNORE => "IGNORE"@,
        Keyword::IMMEDIATE => "IMMEDIATE"@,
        Keyword::IMMEDIATELY => "IMMEDIATELY"@,
        Keyword::IMPLEMENTATION => "IMPLEMENTATION"@,
        Keyword::IN => "IN"@,
        Keyword::INCLUDING => "INCLUDING"@,
        Keyword::INCREMENT => "INCREMENT"@,
        Keyword::INDICATOR => "INDICATOR"@,
        Keyword::INITIAL => "INITIAL"@,
        Keyword::INITIALLY => "INITIALLY"@,
        Keyword::INNER => "INNER"@,
        Keyword::INOUT => "INOUT"@,
        Keyword::INPUT => "INPUT"@,
        Keyword::INSENSITIVE => "INSENSITIVE"@,
        Keyword::INSERT => "INSERT"@,
        Keyword::INSTANCE => "INSTANCE"@,
        Keyword::INSTANTIABLE => "INSTANTIABLE"@,
        Keyword::INSTEAD => "INSTEAD"@,
        Keyword::INT => "INT"@,
        Keyword::INTEGER => "INTEGER"@,
        Keyword::INTERSECT => "INTERSECT"@,
        Keyword::INTERSECTION => "INTERSECTION"@,
        Keyword::INTERVAL => "INTERVAL"@,
        Keyword::INTO => "INTO"@,
        Keyword::INVOKER => "INVOKER"@,
        Keyword::IS => "IS"@,
        Keyword::ISOLATION => "ISOLATION"@,
        Keyword::IS_PRUNABLE => "IS_PRUNABLE"@,
        Keyword::JOIN => "JOIN"@,
        Keyword::JSON => "JSON"@,
        Keyword::JSON_ARRAY => "JSON_ARRAY"@,
        Keyword::JSON_ARRAYAGG => "JSON_ARRAYAGG"@,
        Keyword::JSON_EXISTS => "JSON_EXISTS"@,
        Keyword::JSON_OBJECT => "JSON_OBJECT"@,
        Keyword::JSON_OBJECTAGG => "JSON_OBJECTAGG"@,
        Keyword::JSON_QUERY => "JSON_QUERY"@,
        Keyword::JSON_TABLE => "JSON_TABLE"@,
        Keyword::JSON_TABLE_PRIMITIVE => "JSON_TABLE_PRIMITIVE"@,
        Keyword::JSON_VALUE => "JSON_VALUE"@,
        Keyword::K => "K"@,
        Keyword::KEEP => "KEEP"@,
        Keyword::KEY => "KEY"@,
        Keyword::KEY_MEMBER => "KEY_MEMBER"@,
        Keyword::KEYS => "KEYS"@,
        Keyword::KEY_TYPE => "KEY_TYPE"@,
        Keyword::LAG => "LAG"@,
        Keyword::LANGUAGE => "LANGUAGE"@,
        Keyword::LARGE => "LARGE"@,
        Keyword::LAST => "LAST"@,
        _ => Seq::empty(),
    }
}

/// Canonical text of the keywords of group 6.
pub open spec fn spec_keyword_name_6(k: Keyword) -> Seq<char> {
    match k {
        Keyword::LAST_VALUE => "LAST_VALUE"@,
        Keyword::LATERAL => "LATERAL"@,
        Keyword::LEAD => "LEAD"@,
        Keyword::LEADING => "LEADING"@,
        Keyword::LEFT => "LEFT"@,
        Keyword::LENGTH => "LENGTH"@,
        Keyword::LEVEL => "LEVEL"@,
        Keyword::LIKE => "LIKE"@,
        Keyword::LIKE_REGEX => "LIKE_REGEX"@,
        Keyword::LISTAGG => "LISTAGG"@,
        Keyword::LN => "LN"@,
        Keyword::LOCAL => "LOCAL"@,
        Keyword::LOCALTIME => "LOCALTIME"@,
        Keyword::LOCALTIMESTAMP => "LOCALTIMESTAMP"@,
        Keyword::LOCATOR => "LOCATOR"@,
        Keyword::LOG => "LOG"@,
        Keyword::LOG10 => "LOG10"@,
        Keyword::LOWER => "LOWER"@,
        Keyword::M => "M"@,
        Keyword::MAP => "MAP"@,
        Keyword::MATCH => "MATCH"@,
        Keyword::MATCHED => "MATCHED"@,
        Keyword::MATCHES => "MATCHES"@,
        Keyword::MATCH_NUMBER => "MATCH_NUMBER"@,
        Keyword::MATCH_RECOGNIZE => "MATCH_RECOGNIZE"@,
        Keyword::MAX => "MAX"@,
        Keyword::MAXVALUE => "MAXVALUE"@,
        Keyword::MEMBER => "MEMBER"@,
        Keyword::MERGE => "MERGE"@,
        Keyword::MESSAGE_LENGTH => "MESSAGE_LENGTH"@,
        Keyword::MESSAGE_OCTET_LENGTH => "MESSAGE_OCTET_LENGTH"@,
        Keyword::MESSAGE_TEXT => "MESSAGE_TEXT"@,
        Keyword::METHOD => "METHOD"@,
        Keyword::MIN => "MIN"@,
        Keyword::MINUTE => "MINUTE"@,
        Keyword::MINVALUE => "MINVALUE"@,
        Keyword::MOD => "MOD"@,
        Keyword::MODIFIES => "MODIFIES"@,
        Keyword::MODULE => "MODULE"@,
        Keyword::MONTH => "MONTH"@,
        Keyword::MORE => "MORE"@,
        Keyword::MULTISET => "MULTISET"@,
        Keyword::MUMPS => "MUMPS"@,
        Keyword::NAME => "NAME"@,
        Keyword::NAMES => "NAMES"@,
        Keyword::NATIONAL => "NATIONAL"@,
        Keyword::NATURAL => "NATURAL"@,
        Keyword::NCHAR => "NCHAR"@,
        Keyword::NCLOB => "NCLOB"@,
        Keyword::NESTED => "NESTED"@,
        _ => Seq::empty(),
    }
}

/// Canonical text of the keywords of group 7.
pub open spec fn spec_keyword_name_7(k: Keyword) -> Seq<char> {
    match k {
        Keyword::NESTING => "NESTING"@,
        Keyword::NEW => "NEW"@,
        Keyword::NEXT => "NEXT"@,
        Keyword::NFC => "NFC"@,
        Keyword::NFD => "NFD"@,
        Keyword::NFKC => "NFKC"@,
        Keyword::NFKD => "NFKD"@,
        Keyword::NO => "NO"@,
        Keyword::NONE => "NONE"@,
        Keyword::NORMALIZE => "NORMALIZE"@,
        Keyword::NORMALIZED => "NORMALIZED"@,
        Keyword::NOT => "NOT"@,
        Keyword::NTH_VALUE => "NTH_VALUE"@,
        Keyword::NTILE => "NTILE"@,
        Keyword::NULL => "NULL"@,
        Keyword::NULLABLE => "NULLABLE"@,
        Keyword::NULLIF => "NULLIF"@,
        Keyword::NULLS => "NULLS"@,
        Keyword::NUMBER => "NUMBER"@,
        Keyword::NUMERIC => "NUMERIC"@,
        Keyword::OBJECT => "OBJECT"@,
        Keyword::OCCURRENCES_REGEX => "OCCURRENCES_REGEX"@,
        Keyword::OCTET_LENGTH => "OCTET_LENGTH"@,
        Keyword::OCTETS => "OCTETS"@,
        Keyword::OF => "OF"@,
        Keyword::OFFSET => "OFFSET"@,
        Keyword::OLD => "OLD"@,
        Keyword::OMIT => "OMIT"@,
        Keyword::ON => "ON"@,
        Keyword::ONE => "ONE"@,
        Keyword::ONLY => "ONLY"@,
        Keyword::OPEN => "OPEN"@,
        Keyword::OPTION => "OPTION"@,
        Keyword::OPTIONS => "OPTIONS"@,
        Keyword::OR => "OR"@,
        Keyword::ORDER => "ORDER"@,
        Keyword::ORDERING => "ORDERING"@,
        Keyword::ORDINALITY => "ORDINALITY"@,
        Keyword::OTHERS => "OTHERS"@,
        Keyword::OUT => "OUT"@,
        Keyword::OUTER => "OUTER"@,
        Keyword::OUTPUT => "OUTPUT"@,
        Keyword::OVER => "OVER"@,
        Keyword::OVERFLOW => "OVERFLOW"@,
        Keyword::OVERLAPS => "OVERLAPS"@,
        Keyword::OVERLAY => "OVERLAY"@,
        Keyword::OVERRIDING => "OVERRIDING"@,
        Keyword::P => "P"@,
        Keyword::PAD => "PAD"@,
        Keyword::PARAMETER => "PARAMETER"@,
        _ => Seq::empty(),
    }
}

/// Canonical text of the keywords of group 8.
pub open spec fn spec_keyword_name_8(k: Keyword) -> Seq<char> {
    match k {
        Keyword::PARAMETER_MODE => "PARAMETER_MODE"@,
        Keyword::PARAMETER_NAME => "PARAMETER_NAME"@,
        Keyword::PARAMETER_ORDINAL_POSITION => "PARAMETER_ORDINAL_POSITION"@,
        Keyword::PARAMETER_SPECIFIC_CATALOG => "PARAMETER_SPECIFIC_CATALOG"@,
        Keyword::PARAMETER_SPECIFIC_NAME => "PARAMETER_SPECIFIC_NAME"@,
        Keyword::PARAMETER_SPECIFIC_SCHEMA => "PARAMETER_SPECIFIC_SCHEMA"@,
        Keyword::PARTIAL => "PARTIAL"@,
        Keyword::PARTITION => "PARTITION"@,
        Keyword::PASCAL => "PASCAL"@,
        Keyword::PASS => "PASS"@,
        Keyword::PASSING => "PASSING"@,
        Keyword::PAST => "PAST"@,
        Keyword::PATH => "PATH"@,
        Keyword::PATTERN => "PATTERN"@,
        Keyword::PER => "PER"@,
        Keyword::PERCENT => "PERCENT"@,
        Keyword::PERCENTILE_CONT => "PERCENTILE_CONT"@,
        Keyword::PERCENTILE_DISC => "PERCENTILE_DISC"@,
        Keyword::PERCENT_RANK => "PERCENT_RANK"@,
        Keyword::PERIOD => "PERIOD"@,
        Keyword::PLACING => "PLACING"@,
        Keyword::PLAN => "PLAN"@,
        Keyword::PLI => "PLI"@,
        Keyword::PORTION => "PORTION"@,
        Keyword::POSITION => "POSITION"@,
        Keyword::POSITION_REGEX => "POSITION_REGEX"@,
        Keyword::POWER => "POWER"@,
        Keyword::PRECEDES => "PRECEDES"@,
        Keyword::PRECEDING => "PRECEDING"@,
        Keyword::PRECISION => "PRECISION"@,
        Keyword::PREPARE => "PREPARE"@,
        Keyword::PRESERVE => "PRESERVE"@,
        Keyword::PRIMARY => "PRIMARY"@,
        Keyword::PRIOR => "PRIOR"@,
        Keyword::PRIVATE => "PRIVATE"@,
        Keyword::PRIVATE_PARAMETERS => "PRIVATE_PARAMETERS"@,
        Keyword::PRIVATE_PARAMS_S => "PRIVATE_PARAMS_S"@,
        Keyword::PRIVILEGES => "PRIVILEGES"@,
        Keyword::PROCEDURE => "PROCEDURE"@,
        Keyword::PRUNE => "PRUNE"@,
        Keyword::PTF => "PTF"@,
        Keyword::PUBLIC => "PUBLIC"@,
        Keyword::QUOTES => "QUOTES"@,
        Keyword::RANGE => "RANGE"@,
        Keyword::RANK => "RANK"@,
        Keyword::READ => "READ"@,
        Keyword::READS => "READS"@,
        Keyword::REAL => "REAL"@,
        Keyword::RECURSIVE => "RECURSIVE"@,
        Keyword::REF => "REF"@,
        _ => Seq::empty(),
    }
}

/// Canonical text of the keywords of group 9.
pub open spec fn spec_keyword_name_9(k: Keyword) -> Seq<char> {
    match k {
        Keyword::REFERENCES => "REFERENCES"@,
        Keyword::REFERENCING => "REFERENCING"@,
        Keyword::REGR_AVGX => "REGR_AVGX"@,
        Keyword::REGR_AVGY => "REGR_AVGY"@,
        Keyword::REGR_COUNT => "REGR_COUNT"@,
        Keyword::REGR_INTERCEPT => "REGR_INTERCEPT"@,
        Keyword::REGR_R2 => "REGR_R2"@,
        Keyword::REGR_SLOPE => "REGR_SLOPE"@,
        Keyword::REGR_SXX => "REGR_SXX"@,
        Keyword::REGR_SXY => "REGR_SXY"@,
        Keyword::REGR_SYY => "REGR_SYY"@,
        Keyword::RELATIVE => "RELATIVE"@,
        Keyword::RELEASE => "RELEASE"@,
        Keyword::REPEATABLE => "REPEATABLE"@,
        Keyword::RESPECT => "RESPECT"@,
        Keyword::RESTART => "RESTART"@,
        Keyword::RESTRICT => "RESTRICT"@,
        Keyword::RESULT => "RESULT"@,
        Keyword::RET_ONLY_PASS_THRU => "RET_ONLY_PASS_THRU"@,
        Keyword::RETURN => "RETURN"@,
        Keyword::RETURNED_CARDINALITY => "RETURNED_CARDINALITY"@,
        Keyword::RETURNED_LENGTH => "RETURNED_LENGTH"@,
        Keyword::RETURNED_OCTET_LENGTH => "RETURNED_OCTET_LENGTH"@,
        Keyword::RETURNED_SQLSTATE => "RETURNED_SQLSTATE"@,
        Keyword::RETURNING => "RETURNING"@,
        Keyword::RETURNS => "RETURNS"@,
        Keyword::RETURNS_ONLY_PASS_THROUGH => "RETURNS_ONLY_PASS_THROUGH"@,
        Keyword::REVOKE => "REVOKE"@,
        Keyword::RIGHT => "RIGHT"@,
        Keyword::ROLE => "ROLE"@,
        Keyword::ROLLBACK => "ROLLBACK"@,
        Keyword::ROLLUP => "ROLLUP"@,
        Keyword::ROUTINE => "ROUTINE"@,
        Keyword::ROUTINE_CATALOG => "ROUTINE_CATALOG"@,
        Keyword::ROUTINE_NAME => "ROUTINE_NAME"@,
        Keyword::ROUTINE_SCHEMA => "ROUTINE_SCHEMA"@,
        Keyword::ROW => "ROW"@,
        Keyword::ROW_COUNT => "ROW_COUNT"@,
        Keyword::ROW_NUMBER => "ROW_NUMBER"@,
        Keyword::ROWS => "ROWS"@,
        Keyword::RUNNING => "RUNNING"@,
        Keyword::SAVEPOINT => "SAVEPOINT"@,
        Keyword::SCALAR => "SCALAR"@,
        Keyword::SCALE => "SCALE"@,
        Keyword::SCHEMA => "SCHEMA"@,
        Keyword::SCHEMA_NAME => "SCHEMA_NAME"@,
        Keyword::SCOPE => "SCOPE"@,
        Keyword::SCOPE_CATALOG => "SCOPE_CATALOG"@,
        Keyword::SCOPE_NAME => "SCOPE_NAME"@,
        Keyword::SCOPE_SCHEMA => "SCOPE_SCHEMA"@,
        _ => Seq::empty(),
    }
}

/// Canonical text of the keywords of group 10.
pub open spec fn spec_keyword_name_10(k: Keyword) -> Seq<char> {
    match k {
        Keyword::SCROLL => "SCROLL"@,
        Keyword::SEARCH => "SEARCH"@,
        Keyword::SECOND => "SECOND"@,
        Keyword::SECTION => "SECTION"@,
        Keyword::SECURITY => "SECURITY"@,
        Keyword::SEEK => "SEEK"@,
        Keyword::SELECT => "SELECT"@,
        Keyword::SELF => "SELF"@,
        Keyword::SENSITIVE => "SENSITIVE"@,
        Keyword::SEQUENCE => "SEQUENCE"@,
        Keyword::SERIALIZABLE => "SERIALIZABLE"@,
        Keyword::SERVER_NAME => "SERVER_NAME"@,
        Keyword::SESSION => "SESSION"@,
        Keyword::SESSION_USER => "SESSION_USER"@,
        Keyword::SET => "SET"@,
        Keyword::SETS => "SETS"@,
        Keyword::SHOW => "SHOW"@,
        Keyword::SIMILAR => "SIMILAR"@,
        Keyword::SIMPLE => "SIMPLE"@,
        Keyword::SIN => "SIN"@,
        Keyword::SINH => "SINH"@,
        Keyword::SIZE => "SIZE"@,
        Keyword::SKIP => "SKIP"@,
        Keyword::SMALLINT => "SMALLINT"@,
        Keyword::SOME => "SOME"@,
        Keyword::SOURCE => "SOURCE"@,
        Keyword::SPACE => "SPACE"@,
        Keyword::SPECIFIC => "SPECIFIC"@,
        Keyword::SPECIFIC_NAME => "SPECIFIC_NAME"@,
        Keyword::SPECIFICTYPE => "SPECIFICTYPE"@,
        Keyword::SQL => "SQL"@,
        Keyword::SQLEXCEPTION => "SQLEXCEPTION"@,
        Keyword::SQLSTATE => "SQLSTATE"@,
        Keyword::SQLWARNING => "SQLWARNING"@,
        Keyword::SQRT => "SQRT"@,
        Keyword::START => "START"@,
        Keyword::START_CATALOG => "START_CATALOG"@,
        Keyword::START_NAME => "START_NAME"@,
        Keyword::START_PROCEDURE_SPECIFIC_CATALOG => "START_PROCEDURE_SPECIFIC_CATALOG"@,
        Keyword::START_PROCEDURE_SPECIFIC_NAME => "START_PROCEDURE_SPECIFIC_NAME"@,
        Keyword::START_PROCEDURE_SPECIFIC_SCHEMA => "START_PROCEDURE_SPECIFIC_SCHEMA"@,
        Keyword::START_SCHEMA => "START_SCHEMA"@,
        Keyword::STATE => "STATE"@,
        Keyword::STATEMENT => "STATEMENT"@,
        Keyword::STATIC => "STATIC"@,
        Keyword::STDDEV_POP => "STDDEV_POP"@,
        Keyword::STDDEV_SAMP => "STDDEV_SAMP"@,
        Keyword::STRING => "STRING"@,
        Keyword::STRUCTURE => "STRUCTURE"@,
        Keyword::STYLE => "STYLE"@,
        _ => Seq::empty(),
    }
}

/// Canonical text of the keywords of group 11.
pub open spec fn spec_keyword_name_11(k: Keyword) -> Seq<char> {
    match k {
        Keyword::SUBCLASS_ORIGIN => "SUBCLASS_ORIGIN"@,
        Keyword::SUBMULTISET => "SUBMULTISET"@,
        Keyword::SUBSET => "SUBSET"@,
        Keyword::SUBSTRING => "SUBSTRING"@,
        Keyword::SUBSTRING_REGEX => "SUBSTRING_REGEX"@,
        Keyword::SUCCEEDS => "SUCCEEDS"@,
        Keyword::SUM => "SUM"@,
        Keyword::SYMMETRIC => "SYMMETRIC"@,
        Keyword::SYSTEM => "SYSTEM"@,
        Keyword::SYSTEM_TIME => "SYSTEM_TIME"@,
        Keyword::SYSTEM_USER => "SYSTEM_USER"@,
        Keyword::T => "T"@,
        Keyword::TABLE => "TABLE"@,
        Keyword::TABLE_NAME => "TABLE_NAME"@,
        Keyword::TABLESAMPLE => "TABLESAMPLE"@,
        Keyword::TABLE_SEMANTICS => "TABLE_SEMANTICS"@,
        Keyword::TAN => "TAN"@,
        Keyword::TANH => "TANH"@,
        Keyword::TEMPORARY => "TEMPORARY"@,
        Keyword::THEN => "THEN"@,
        Keyword::THROUGH => "THROUGH"@,
        Keyword::TIES => "TIES"@,
        Keyword::TIME => "TIME"@,
        Keyword::TIMESTAMP => "TIMESTAMP"@,
        Keyword::TIMEZONE_HOUR => "TIMEZONE_HOUR"@,
        Keyword::TIMEZONE_MINUTE => "TIMEZONE_MINUTE"@,
        Keyword::TO => "TO"@,
        Keyword::TOP_LEVEL_COUNT => "TOP_LEVEL_COUNT"@,
        Keyword::TRAILING => "TRAILING"@,
        Keyword::TRANSACTION => "TRANSACTION"@,
        Keyword::TRANSACTION_ACTIVE => "TRANSACTION_ACTIVE"@,
        Keyword::TRANSACTIONS_COMMITTED => "TRANSACTIONS_COMMITTED"@,
        Keyword::TRANSACTIONS_ROLLED_BACK => "TRANSACTIONS_ROLLED_BACK"@,
        Keyword::TRANSFORM => "TRANSFORM"@,
        Keyword::TRANSFORMS => "TRANSFORMS"@,
        Keyword::TRANSLATE => "TRANSLATE"@,
        Keyword::TRANSLATE_REGEX => "TRANSLATE_REGEX"@,
        Keyword::TRANSLATION => "TRANSLATION"@,
        Keyword::TREAT => "TREAT"@,
        Keyword::TRIGGER => "TRIGGER"@,
        Keyword::TRIGGER_CATALOG => "TRIGGER_CATALOG"@,
        Keyword::TRIGGER_NAME => "TRIGGER_NAME"@,
        Keyword::TRIGGER_SCHEMA => "TRIGGER_SCHEMA"@,
        Keyword::TRIM => "TRIM"@,
        Keyword::TRIM_ARRAY => "TRIM_ARRAY"@,
        Keyword::TRUE => "TRUE"@,
        Keyword::TRUNCATE => "TRUNCATE"@,
        Keyword::TYPE => "TYPE"@,
        Keyword::UESCAPE => "UESCAPE"@,
        Keyword::UNBOUNDED => "UNBOUNDED"@,
        _ => Seq::empty(),
    }
}

/// Canonical text of the keywords of group 12.
pub open spec fn spec_keyword_name_12(k: Keyword) -> Seq<char> {
    match k {
        Keyword::UNCOMMITTED => "UNCOMMITTED"@,
        Keyword::UNCONDITIONAL => "UNCONDITIONAL"@,
        Keyword::UNDER => "UNDER"@,
        Keyword::UNION => "UNION"@,
        Keyword::UNIQUE => "UNIQUE"@,
        Keyword::UNKNOWN => "UNKNOWN"@,
        Keyword::UNNAMED => "UNNAMED"@,
        Keyword::UNNEST => "UNNEST"@,
        Keyword::UPDATE => "UPDATE"@,
        Keyword::UPPER => "UPPER"@,
        Keyword::USAGE => "USAGE"@,
        Keyword::USER => "USER"@,
        Keyword::USER_DEFINED_TYPE_CATALOG => "USER_DEFINED_TYPE_CATALOG"@,
        Keyword::USER_DEFINED_TYPE_CODE => "USER_DEFINED_TYPE_CODE"@,
        Keyword::USER_DEFINED_TYPE_NAME => "USER_DEFINED_TYPE_NAME"@,
        Keyword::USER_DEFINED_TYPE_SCHEMA => "USER_DEFINED_TYPE_SCHEMA"@,
        Keyword::USING => "USING"@,
        Keyword::UTF16 => "UTF16"@,
        Keyword::UTF32 => "UTF32"@,
        Keyword::UTF8 => "UTF8"@,
        Keyword::VALUE => "VALUE"@,
        Keyword::VALUE_OF => "VALUE_OF"@,
        Keyword::VALUES => "VALUES"@,
        Keyword::VARBINARY => "VARBINARY"@,
        Keyword::VARCHAR => "VARCHAR"@,
        Keyword::VAR_POP => "VAR_POP"@,
        Keyword::VAR_SAMP => "VAR_SAMP"@,
        Keyword::VARYING => "VARYING"@,
        Keyword::VERSIONING => "VERSIONING"@,
        Keyword::VIEW => "VIEW"@,
        Keyword::WHEN => "WHEN"@,
        Keyword::WHENEVER => "WHENEVER"@,
        Keyword::WHERE => "WHERE"@,
        Keyword::WIDTH_BUCKET => "WIDTH_BUCKET"@,
        Keyword::WINDOW => "WINDOW"@,
        Keyword::WITH => "WITH"@,
        Keyword::WITHIN => "WITHIN"@,
        Keyword::WITHOUT => "WITHOUT"@,
        Keyword::WORK => "WORK"@,
        Keyword::WRAPPER => "WRAPPER"@,
        Keyword::WRITE => "WRITE"@,
        Keyword::YEAR => "YEAR"@,
        Keyword::ZONE => "ZONE"@,
        Keyword::DATABASE => "DATABASE"@,
        Keyword::DATETIME => "DATETIME"@,
        Keyword::ILIKE => "ILIKE"@,
        Keyword::LIMIT => "LIMIT"@,
        Keyword::REPLACE => "REPLACE"@,
        Keyword::XOR => "XOR"@,
        Keyword::IF => "IF"@,
        Keyword::INDEX => "INDEX"@,
        _ => Seq::empty(),
    }
}

/// The group of the keyword table that a keyword belongs to.
pub open spec fn spec_keyword_group(k: Keyword) -> int {
    match k {
        Keyword::A | Keyword::ABS | Keyword::ABSOLUTE | Keyword::ACOS | Keyword::ACTION | Keyword::ADA | Keyword::ADD | Keyword::ADMIN | Keyword::AFTER | Keyword::ALL | Keyword::ALLOCATE | Keyword::ALTER | Keyword::ALWAYS | Keyword::AND | Keyword::ANY | Keyword::ARE | Keyword::ARRAY | Keyword::ARRAY_AGG | Keyword::ARRAY_MAX_CARDINALITY | Keyword::AS | Keyword::ASC | Keyword::ASENSITIVE | Keyword::ASIN | Keyword::ASSERTION | Keyword::ASSIGNMENT | Keyword::ASYMMETRIC | Keyword::AT | Keyword::ATAN | Keyword::ATOMIC | Keyword::ATTRIBUTE | Keyword::ATTRIBUTES | Keyword::AUTHORIZATION | Keyword::AVG | Keyword::BEFORE | Keyword::BEGIN | Keyword::BEGIN_FRAME | Keyword::BEGIN_PARTITION | Keyword::BERNOULLI | Keyword::BETWEEN | Keyword::BIGINT | Keyword::BINARY | Keyword::BLOB | Keyword::BOOLEAN | Keyword::BOTH | Keyword::BREADTH | Keyword::BY | Keyword::C | Keyword::CALL | Keyword::CALLED | Keyword::CARDINALITY => 0,
        Keyword::CASCADE | Keyword::CASCADED | Keyword::CASE | Keyword::CAST | Keyword::CATALOG | Keyword::CATALOG_NAME | Keyword::CEIL | Keyword::CEILING | Keyword::CHAIN | Keyword::CHAINING | Keyword::CHAR | Keyword::CHARACTER | Keyword::CHARACTERISTICS | Keyword::CHARACTER_LENGTH | Keyword::CHARACTERS | Keyword::CHARACTER_SET_CATALOG | Keyword::CHARACTER_SET_NAME | Keyword::CHARACTER_SET_SCHEMA | Keyword::CHAR_LENGTH | Keyword::CHECK | Keyword::CLASSIFIER | Keyword::CLASS_ORIGIN | Keyword::CLOB | Keyword::CLOSE | Keyword::COALESCE | Keyword::COBOL | Keyword::COLLATE | Keyword::COLLATION | Keyword::COLLATION_CATALOG | Keyword::COLLATION_NAME | Keyword::COLLATION_SCHEMA | Keyword::COLLECT | Keyword::COLUMN | Keyword::COLUMN_NAME | Keyword::COLUMNS | Keyword::COMMAND_FUNCTION | Keyword::COMMAND_FUNCTION_CODE | Keyword::COMMIT | Keyword::COMMITTED | Keyword::CONDITION | Keyword::CONDITIONAL | Keyword::CONDITION_NUMBER | Keyword::CONNECT | Keyword::CONNECTION | Keyword::CONNECTION_NAME | Keyword::CONSTRAINT | Keyword::CONSTRAINT_CATALOG | Keyword::CONSTRAINT_NAME | Keyword::CONSTRAINTS | Keyword::CONSTRAINT_SCHEMA => 1,
        Keyword::CONSTRUCTOR | Keyword::CONTAINS | Keyword::CONTINUE | Keyword::CONVERT | Keyword::COPY | Keyword::CORR | Keyword::CORRESPONDING | Keyword::COS | Keyword::COSH | Keyword::COUNT | Keyword::COVAR_POP | Keyword::COVAR_SAMP | Keyword::CREATE | Keyword::CROSS | Keyword::CUBE | Keyword::CUME_DIST | Keyword::CURRENT | Keyword::CURRENT_CATALOG | Keyword::CURRENT_DATE | Keyword::CURRENT_DEFAULT_TRANSFORM_GROUP | Keyword::CURRENT_PATH | Keyword::CURRENT_ROLE | Keyword::CURRENT_ROW | Keyword::CURRENT_SCHEMA | Keyword::CURRENT_TIME | Keyword::CURRENT_TIMESTAMP | Keyword::CURRENT_TRANSFORM_GROUP_FOR_TYPE | Keyword::CURRENT_USER | Keyword::CURSOR | Keyword::CURSOR_NAME | Keyword::CYCLE | Keyword::DATA | Keyword::DATE | Keyword::DATETIME_INTERVAL_CODE | Keyword::DATETIME_INTERVAL_PRECISION | Keyword::DAY | Keyword::DEALLOCATE | Keyword::DEC | Keyword::DECFLOAT | Keyword::DECIMAL | Keyword::DECLARE | Keyword::DEFAULT | Keyword::DEFAULTS | Keyword::DEFERRABLE | Keyword::DEFERRED | Keyword::DEFINE | Keyword::DEFINED | Keyword::DEFINER | Keyword::DEGREE | Keyword::DELETE => 2,
        Keyword::DENSE_RANK | Keyword::DEPTH | Keyword::DEREF | Keyword::DERIVED | Keyword::DESC | Keyword::DESCRIBE | Keyword::DESCRIBE_CATALOG | Keyword::DESCRIBE_NAME | Keyword::DESCRIBE_PROCEDURE_SPECIFIC_CATALOG | Keyword::DESCRIBE_PROCEDURE_SPECIFIC_NAME | Keyword::DESCRIBE_PROCEDURE_SPECIFIC_SCHEMA | Keyword::DESCRIBE_SCHEMA | Keyword::DESCRIPTOR | Keyword::DETERMINISTIC | Keyword::DIAGNOSTICS | Keyword::DISCONNECT | Keyword::DISPATCH | Keyword::DISTINCT | Keyword::DOMAIN | Keyword::DOUBLE | Keyword::DROP | Keyword::DYNAMIC | Keyword::DYNAMIC_FUNCTION | Keyword::DYNAMIC_FUNCTION_CODE | Keyword::EACH | Keyword::ELEMENT | Keyword::ELSE | Keyword::EMPTY | Keyword::ENCODING | Keyword::END | Keyword::END_FRAME | Keyword::END_PARTITION | Keyword::ENFORCED | Keyword::EQUALS | Keyword::ERROR | Keyword::ESCAPE | Keyword::EVERY | Keyword::EXCEPT | Keyword::EXCLUDE | Keyword::EXCLUDING | Keyword::EXEC | Keyword::EXECUTE | Keyword::EXISTS | Keyword::EXP | Keyword::EXPRESSION | Keyword::EXTERNAL | Keyword::EXTRACT | Keyword::FALSE | Keyword::FETCH | Keyword::FILTER => 3,
        Keyword::FINAL | Keyword::FINISH | Keyword::FINISH_CATALOG | Keyword::FINISH_NAME | Keyword::FINISH_PROCEDURE_SPECIFIC_CATALOG | Keyword::FINISH_PROCEDURE_SPECIFIC_NAME | Keyword::FINISH_PROCEDURE_SPECIFIC_SCHEMA | Keyword::FINISH_SCHEMA | Keyword::FIRST | Keyword::FIRST_VALUE | Keyword::FLAG | Keyword::FLOAT | Keyword::FLOOR | Keyword::FOLLOWING | Keyword::FOR | Keyword::FOREIGN | Keyword::FORMAT | Keyword::FORTRAN | Keyword::FOUND | Keyword::FRAME_ROW | Keyword::FREE | Keyword::FROM | Keyword::FULFILL | Keyword::FULFILL_CATALOG | Keyword::FULFILL_NAME | Keyword::FULFILL_PROCEDURE_SPECIFIC_CATALOG | Keyword::FULFILL_PROCEDURE_SPECIFIC_NAME | Keyword::FULFILL_PROCEDURE_SPECIFIC_SCHEMA | Keyword::FULFILL_SCHEMA | Keyword::FULL | Keyword::FUNCTION | Keyword::FUSION | Keyword::G | Keyword::GENERAL | Keyword::GENERATED | Keyword::GET | Keyword::GLOBAL | Keyword::GO | Keyword::GOTO | Keyword::GRANT | Keyword::GRANTED | Keyword::GROUP | Keyword::GROUPING | Keyword::GROUPS | Keyword::HAS_PASS_THROUGH_COLUMNS | Keyword::HAS_PASS_THRU_COLS | Keyword::HAVING | Keyword::HIERARCHY | Keyword::HOLD | Keyword::HOUR => 4,
        Keyword::IDENTITY | Keyword::IGNORE | Keyword::IMMEDIATE | Keyword::IMMEDIATELY | Keyword::IMPLEMENTATION | Keyword::IN | Keyword::INCLUDING | Keyword::INCREMENT | Keyword::INDICATOR | Keyword::INITIAL | Keyword::INITIALLY | Keyword::INNER | Keyword::INOUT | Keyword::INPUT | Keyword::INSENSITIVE | Keyword::INSERT | Keyword::INSTANCE | Keyword::INSTANTIABLE | Keyword::INSTEAD | Keyword::INT | Keyword::INTEGER | Keyword::INTERSECT | Keyword::INTERSECTION | Keyword::INTERVAL | Keyword::INTO | Keyword::INVOKER | Keyword::IS | Keyword::ISOLATION | Keyword::IS_PRUNABLE | Keyword::JOIN | Keyword::JSON | Keyword::JSON_ARRAY | Keyword::JSON_ARRAYAGG | Keyword::JSON_EXISTS | Keyword::JSON_OBJECT | Keyword::JSON_OBJECTAGG | Keyword::JSON_QUERY | Keyword::JSON_TABLE | Keyword::JSON_TABLE_PRIMITIVE | Keyword::JSON_VALUE | Keyword::K | Keyword::KEEP | Keyword::KEY | Keyword::KEY_MEMBER | Keyword::KEYS | Keyword::KEY_TYPE | Keyword::LAG | Keyword::LANGUAGE | Keyword::LARGE | Keyword::LAST => 5,
        Keyword::LAST_VALUE | Keyword::LATERAL | Keyword::LEAD | Keyword::LEADING | Keyword::LEFT | Keyword::LENGTH | Keyword::LEVEL | Keyword::LIKE | Keyword::LIKE_REGEX | Keyword::LISTAGG | Keyword::LN | Keyword::LOCAL | Keyword::LOCALTIME | Keyword::LOCALTIMESTAMP | Keyword::LOCATOR | Keyword::LOG | Keyword::LOG10 | Keyword::LOWER | Keyword::M | Keyword::MAP | Keyword::MATCH | Keyword::MATCHED | Keyword::MATCHES | Keyword::MATCH_NUMBER | Keyword::MATCH_RECOGNIZE | Keyword::MAX | Keyword::MAXVALUE | Keyword::MEMBER | Keyword::MERGE | Keyword::MESSAGE_LENGTH | Keyword::MESSAGE_OCTET_LENGTH | Keyword::MESSAGE_TEXT | Keyword::METHOD | Keyword::MIN | Keyword::MINUTE | Keyword::MINVALUE | Keyword::MOD | Keyword::MODIFIES | Keyword::MODULE | Keyword::MONTH | Keyword::MORE | Keyword::MULTISET | Keyword::MUMPS | Keyword::NAME | Keyword::NAMES | Keyword::NATIONAL | Keyword::NATURAL | Keyword::NCHAR | Keyword::NCLOB | Keyword::NESTED => 6,
        Keyword::NESTING | Keyword::NEW | Keyword::NEXT | Keyword::NFC | Keyword::NFD | Keyword::NFKC | Keyword::NFKD | Keyword::NO | Keyword::NONE | Keyword::NORMALIZE | Keyword::NORMALIZED | Keyword::NOT | Keyword::NTH_VALUE | Keyword::NTILE | Keyword::NULL | Keyword::NULLABLE | Keyword::NULLIF | Keyword::NULLS | Keyword::NUMBER | Keyword::NUMERIC | Keyword::OBJECT | Keyword::OCCURRENCES_REGEX | Keyword::OCTET_LENGTH | Keyword::OCTETS | Keyword::OF | Keyword::OFFSET | Keyword::OLD | Keyword::OMIT | Keyword::ON | Keyword::ONE | Keyword::ONLY | Keyword::OPEN | Keyword::OPTION | Keyword::OPTIONS | Keyword::OR | Keyword::ORDER | Keyword::ORDERING | Keyword::ORDINALITY | Keyword::OTHERS | Keyword::OUT | Keyword::OUTER | Keyword::OUTPUT | Keyword::OVER | Keyword::OVERFLOW | Keyword::OVERLAPS | Keyword::OVERLAY | Keyword::OVERRIDING | Keyword::P | Keyword::PAD | Keyword::PARAMETER => 7,
        Keyword::PARAMETER_MODE | Keyword::PARAMETER_NAME | Keyword::PARAMETER_ORDINAL_POSITION | Keyword::PARAMETER_SPECIFIC_CATALOG | Keyword::PARAMETER_SPECIFIC_NAME | Keyword::PARAMETER_SPECIFIC_SCHEMA | Keyword::PARTIAL | Keyword::PARTITION | Keyword::PASCAL | Keyword::PASS | Keyword::PASSING | Keyword::PAST | Keyword::PATH | Keyword::PATTERN | Keyword::PER | Keyword::PERCENT | Keyword::PERCENTILE_CONT | Keyword::PERCENTILE_DISC | Keyword::PERCENT_RANK | Keyword::PERIOD | Keyword::PLACING | Keyword::PLAN | Keyword::PLI | Keyword::PORTION | Keyword::POSITION | Keyword::POSITION_REGEX | Keyword::POWER | Keyword::PRECEDES | Keyword::PRECEDING | Keyword::PRECISION | Keyword::PREPARE | Keyword::PRESERVE | Keyword::PRIMARY | Keyword::PRIOR | Keyword::PRIVATE | Keyword::PRIVATE_PARAMETERS | Keyword::PRIVATE_PARAMS_S | Keyword::PRIVILEGES | Keyword::PROCEDURE | Keyword::PRUNE | Keyword::PTF | Keyword::PUBLIC | Keyword::QUOTES | Keyword::RANGE | Keyword::RANK | Keyword::READ | Keyword::READS | Keyword::REAL | Keyword::RECURSIVE | Keyword::REF => 8,
        Keyword::REFERENCES | Keyword::REFERENCING | Keyword::REGR_AVGX | Keyword::REGR_AVGY | Keyword::REGR_COUNT | Keyword::REGR_INTERCEPT | Keyword::REGR_R2 | Keyword::REGR_SLOPE | Keyword::REGR_SXX | Keyword::REGR_SXY | Keyword::REGR_SYY | Keyword::RELATIVE | Keyword::RELEASE | Keyword::REPEATABLE | Keyword::RESPECT | Keyword::RESTART | Keyword::RESTRICT | Keyword::RESULT | Keyword::RET_ONLY_PASS_THRU | Keyword::RETURN | Keyword::RETURNED_CARDINALITY | Keyword::RETURNED_LENGTH | Keyword::RETURNED_OCTET_LENGTH | Keyword::RETURNED_SQLSTATE | Keyword::RETURNING | Keyword::RETURNS | Keyword::RETURNS_ONLY_PASS_THROUGH | Keyword::REVOKE | Keyword::RIGHT | Keyword::ROLE | Keyword::ROLLBACK | Keyword::ROLLUP | Keyword::ROUTINE | Keyword::ROUTINE_CATALOG | Keyword::ROUTINE_NAME | Keyword::ROUTINE_SCHEMA | Keyword::ROW | Keyword::ROW_COUNT | Keyword::ROW_NUMBER | Keyword::ROWS | Keyword::RUNNING | Keyword::SAVEPOINT | Keyword::SCALAR | Keyword::SCALE | Keyword::SCHEMA | Keyword::SCHEMA_NAME | Keyword::SCOPE | Keyword::SCOPE_CATALOG | Keyword::SCOPE_NAME | Keyword::SCOPE_SCHEMA => 9,
        Keyword::SCROLL | Keyword::SEARCH | Keyword::SECOND | Keyword::SECTION | Keyword::SECURITY | Keyword::SEEK | Keyword::SELECT | Keyword::SELF | Keyword::SENSITIVE | Keyword::SEQUENCE | Keyword::SERIALIZABLE | Keyword::SERVER_NAME | Keyword::SESSION | Keyword::SESSION_USER | Keyword::SET | Keyword::SETS | Keyword::SHOW | Keyword::SIMILAR | Keyword::SIMPLE | Keyword::SIN | Keyword::SINH | Keyword::SIZE | Keyword::SKIP | Keyword::SMALLINT | Keyword::SOME | Keyword::SOURCE | Keyword::SPACE | Keyword::SPECIFIC | Keyword::SPECIFIC_NAME | Keyword::SPECIFICTYPE | Keyword::SQL | Keyword::SQLEXCEPTION | Keyword::SQLSTATE | Keyword::SQLWARNING | Keyword::SQRT | Keyword::START | Keyword::START_CATALOG | Keyword::START_NAME | Keyword::START_PROCEDURE_SPECIFIC_CATALOG | Keyword::START_PROCEDURE_SPECIFIC_NAME | Keyword::START_PROCEDURE_SPECIFIC_SCHEMA | Keyword::START_SCHEMA | Keyword::STATE | Keyword::STATEMENT | Keyword::STATIC | Keyword::STDDEV_POP | Keyword::STDDEV_SAMP | Keyword::STRING | Keyword::STRUCTURE | Keyword::STYLE => 10,
        Keyword::SUBCLASS_ORIGIN | Keyword::SUBMULTISET | Keyword::SUBSET | Keyword::SUBSTRING | Keyword::SUBSTRING_REGEX | Keyword::SUCCEEDS | Keyword::SUM | Keyword::SYMMETRIC | Keyword::SYSTEM | Keyword::SYSTEM_TIME | Keyword::SYSTEM_USER | Keyword::T | Keyword::TABLE | Keyword::TABLE_NAME | Keyword::TABLESAMPLE | Keyword::TABLE_SEMANTICS | Keyword::TAN | Keyword::TANH | Keyword::TEMPORARY | Keyword::THEN | Keyword::THROUGH | Keyword::TIES | Keyword::TIME | Keyword::TIMESTAMP | Keyword::TIMEZONE_HOUR | Keyword::TIMEZONE_MINUTE | Keyword::TO | Keyword::TOP_LEVEL_COUNT | Keyword::TRAILING | Keyword::TRANSACTION | Keyword::TRANSACTION_ACTIVE | Keyword::TRANSACTIONS_COMMITTED | Keyword::TRANSACTIONS_ROLLED_BACK | Keyword::TRANSFORM | Keyword::TRANSFORMS | Keyword::TRANSLATE | Keyword::TRANSLATE_REGEX | Keyword::TRANSLATION | Keyword::TREAT | Keyword::TRIGGER | Keyword::TRIGGER_CATALOG | Keyword::TRIGGER_NAME | Keyword::TRIGGER_SCHEMA | Keyword::TRIM | Keyword::TRIM_ARRAY | Keyword::TRUE | Keyword::TRUNCATE | Keyword::TYPE | Keyword::UESCAPE | Keyword::UNBOUNDED => 11,
        Keyword::UNCOMMITTED | Keyword::UNCONDITIONAL | Keyword::UNDER | Keyword::UNION | Keyword::UNIQUE | Keyword::UNKNOWN | Keyword::UNNAMED | Keyword::UNNEST | Keyword::UPDATE | Keyword::UPPER | Keyword::USAGE | Keyword::USER | Keyword::USER_DEFINED_TYPE_CATALOG | Keyword::USER_DEFINED_TYPE_CODE | Keyword::USER_DEFINED_TYPE_NAME | Keyword::USER_DEFINED_TYPE_SCHEMA | Keyword::USING | Keyword::UTF16 | Keyword::UTF32 | Keyword::UTF8 | Keyword::VALUE | Keyword::VALUE_OF | Keyword::VALUES | Keyword::VARBINARY | Keyword::VARCHAR | Keyword::VAR_POP | Keyword::VAR_SAMP | Keyword::VARYING | Keyword::VERSIONING | Keyword::VIEW | Keyword::WHEN | Keyword::WHENEVER | Keyword::WHERE | Keyword::WIDTH_BUCKET | Keyword::WINDOW | Keyword::WITH | Keyword::WITHIN | Keyword::WITHOUT | Keyword::WORK | Keyword::WRAPPER | Keyword::WRITE | Keyword::YEAR | Keyword::ZONE | Keyword::DATABASE | Keyword::DATETIME | Keyword::ILIKE | Keyword::LIMIT | Keyword::REPLACE | Keyword::XOR | Keyword::IF | Keyword::INDEX => 12,
    }
}

/// The canonical (upper case) text of a keyword.
pub open spec fn spec_keyword_name(k: Keyword) -> Seq<char> {
    if spec_keyword_group(k) == 0 {
        spec_keyword_name_0(k)
    } else if spec_keyword_group(k) == 1 {
        spec_keyword_name_1(k)
    } else if spec_keyword_group(k) == 2 {
        spec_keyword_name_2(k)
    } else if spec_keyword_group(k) == 3 {
        spec_keyword_name_3(k)
    } else if spec_keyword_group(k) == 4 {
        spec_keyword_name_4(k)
    } else if spec_keyword_group(k) == 5 {
        spec_keyword_name_5(k)
    } else if spec_keyword_group(k) == 6 {
        spec_keyword_name_6(k)
    } else if spec_keyword_group(k) == 7 {
        spec_keyword_name_7(k)
    } else if spec_keyword_group(k) == 8 {
        spec_keyword_name_8(k)
    } else if spec_keyword_group(k) == 9 {
        spec_keyword_name_9(k)
    } else if spec_keyword_group(k) == 10 {
        spec_keyword_name_10(k)
    } else if spec_keyword_group(k) == 11 {
        spec_keyword_name_11(k)
    } else {
        spec_keyword_name_12(k)
    }
}

/// The non-standard keywords, which are not part of the ANSI keyword set.
pub open spec fn is_extension_keyword(k: Keyword) -> bool {
    k == Keyword::DATABASE || k == Keyword::DATETIME || k == Keyword::ILIKE || k == Keyword::LIMIT || k == Keyword::REPLACE || k == Keyword::XOR
        || k == Keyword::IF || k == Keyword::INDEX
}

fn keyword_at_0(i: u16) -> (k: Keyword)
    requires
        0 <= i < 50,
    ensures
        k == spec_keyword_at_0(i),
{
    match i {
        0u16 => Keyword::A,
        1u16 => Keyword::ABS,
        2u16 => Keyword::ABSOLUTE,
        3u16 => Keyword::ACOS,
        4u16 => Keyword::ACTION,
        5u16 => Keyword::ADA,
        6u16 => Keyword::ADD,
        7u16 => Keyword::ADMIN,
        8u16 => Keyword::AFTER,
        9u16 => Keyword::ALL,
        10u16 => Keyword::ALLOCATE,
        11u16 => Keyword::ALTER,
        12u16 => Keyword::ALWAYS,
        13u16 => Keyword::AND,
        14u16 => Keyword::ANY,
        15u16 => Keyword::ARE,
        16u16 => Keyword::ARRAY,
        17u16 => Keyword::ARRAY_AGG,
        18u16 => Keyword::ARRAY_MAX_CARDINALITY,
        19u16 => Keyword::AS,
        20u16 => Keyword::ASC,
        21u16 => Keyword::ASENSITIVE,
        22u16 => Keyword::ASIN,
        23u16 => Keyword::ASSERTION,
        24u16 => Keyword::ASSIGNMENT,
        25u16 => Keyword::ASYMMETRIC,
        26u16 => Keyword::AT,
        27u16 => Keyword::ATAN,
        28u16 => Keyword::ATOMIC,
        29u16 => Keyword::ATTRIBUTE,
        30u16 => Keyword::ATTRIBUTES,
        31u16 => Keyword::AUTHORIZATION,
        32u16 => Keyword::AVG,
        33u16 => Keyword::BEFORE,
        34u16 => Keyword::BEGIN,
        35u16 => Keyword::BEGIN_FRAME,
        36u16 => Keyword::BEGIN_PARTITION,
        37u16 => Keyword::BERNOULLI,
        38u16 => Keyword::BETWEEN,
        39u16 => Keyword::BIGINT,
        40u16 => Keyword::BINARY,
        41u16 => Keyword::BLOB,
        42u16 => Keyword::BOOLEAN,
        43u16 => Keyword::BOTH,
        44u16 => Keyword::BREADTH,
        45u16 => Keyword::BY,
        46u16 => Keyword::C,
        47u16 => Keyword::CALL,
        48u16 => Keyword::CALLED,
        _ => Keyword::CARDINALITY,
    }
}

fn keyword_at_1(i: u16) -> (k: Keyword)
    requires
        50 <= i < 100,
    ensures
        k == spec_keyword_at_1(i),
{
    match i {
        50u16 => Keyword::CASCADE,
        51u16 => Keyword::CASCADED,
        52u16 => Keyword::CASE,
        53u16 => Keyword::CAST,
        54u16 => Keyword::CATALOG,
        55u16 => Keyword::CATALOG_NAME,
        56u16 => Keyword::CEIL,
        57u16 => Keyword::CEILING,
        58u16 => Keyword::CHAIN,
        59u16 => Keyword::CHAINING,
        60u16 => Keyword::CHAR,
        61u16 => Keyword::CHARACTER,
        62u16 => Keyword::CHARACTERISTICS,
        63u16 => Keyword::CHARACTER_LENGTH,
        64u16 => Keyword::CHARACTERS,
        65u16 => Keyword::CHARACTER_SET_CATALOG,
        66u16 => Keyword::CHARACTER_SET_NAME,
        67u16 => Keyword::CHARACTER_SET_SCHEMA,
        68u16 => Keyword::CHAR_LENGTH,
        69u16 => Keyword::CHECK,
        70u16 => Keyword::CLASSIFIER,
        71u16 => Keyword::CLASS_ORIGIN,
        72u16 => Keyword::CLOB,
        73u16 => Keyword::CLOSE,
        74u16 => Keyword::COALESCE,
        75u16 => Keyword::COBOL,
        76u16 => Keyword::COLLATE,
        77u16 => Keyword::COLLATION,
        78u16 => Keyword::COLLATION_CATALOG,
        79u16 => Keyword::COLLATION_NAME,
        80u16 => Keyword::COLLATION_SCHEMA,
        81u16 => Keyword::COLLECT,
        82u16 => Keyword::COLUMN,
        83u16 => Keyword::COLUMN_NAME,
        84u16 => Keyword::COLUMNS,
        85u16 => Keyword::COMMAND_FUNCTION,
        86u16 => Keyword::COMMAND_FUNCTION_CODE,
        87u16 => Keyword::COMMIT,
        88u16 => Keyword::COMMITTED,
        89u16 => Keyword::CONDITION,
        90u16 => Keyword::CONDITIONAL,
        91u16 => Keyword::CONDITION_NUMBER,
        92u16 => Keyword::CONNECT,
        93u16 => Keyword::CONNECTION,
        94u16 => Keyword::CONNECTION_NAME,
        95u16 => Keyword::CONSTRAINT,
        96u16 => Keyword::CONSTRAINT_CATALOG,
        97u16 => Keyword::CONSTRAINT_NAME,
        98u16 => Keyword::CONSTRAINTS,
        _ => Keyword::CONSTRAINT_SCHEMA,
    }
}

fn keyword_at_2(i: u16) -> (k: Keyword)
    requires
        100 <= i < 150,
    ensures
        k == spec_keyword_at_2(i),
{
    match i {
        100u16 => Keyword::CONSTRUCTOR,
        101u16 => Keyword::CONTAINS,
        102u16 => Keyword::CONTINUE,
        103u16 => Keyword::CONVERT,
        104u16 => Keyword::COPY,
        105u16 => Keyword::CORR,
        106u16 => Keyword::CORRESPONDING,
        107u16 => Keyword::COS,
        108u16 => Keyword::COSH,
        109u16 => Keyword::COUNT,
        110u16 => Keyword::COVAR_POP,
        111u16 => Keyword::COVAR_SAMP,
        112u16 => Keyword::CREATE,
        113u16 => Keyword::CROSS,
        114u16 => Keyword::CUBE,
        115u16 => Keyword::CUME_DIST,
        116u16 => Keyword::CURRENT,
        117u16 => Keyword::CURRENT_CATALOG,
        118u16 => Keyword::CURRENT_DATE,
        119u16 => Keyword::CURRENT_DEFAULT_TRANSFORM_GROUP,
        120u16 => Keyword::CURRENT_PATH,
        121u16 => Keyword::CURRENT_ROLE,
        122u16 => Keyword::CURRENT_ROW,
        123u16 => Keyword::CURRENT_SCHEMA,
        124u16 => Keyword::CURRENT_TIME,
        125u16 => Keyword::CURRENT_TIMESTAMP,
        126u16 => Keyword::CURRENT_TRANSFORM_GROUP_FOR_TYPE,
        127u16 => Keyword::CURRENT_USER,
        128u16 => Keyword::CURSOR,
        129u16 => Keyword::CURSOR_NAME,
        130u16 => Keyword::CYCLE,
        131u16 => Keyword::DATA,
        132u16 => Keyword::DATE,
        133u16 => Keyword::DATETIME_INTERVAL_CODE,
        134u16 => Keyword::DATETIME_INTERVAL_PRECISION,
        135u16 => Keyword::DAY,
        136u16 => Keyword::DEALLOCATE,
        137u16 => Keyword::DEC,
        138u16 => Keyword::DECFLOAT,
        139u16 => Keyword::DECIMAL,
        140u16 => Keyword::DECLARE,
        141u16 => Keyword::DEFAULT,
        142u16 => Keyword::DEFAULTS,
        143u16 => Keyword::DEFERRABLE,
        144u16 => Keyword::DEFERRED,
        145u16 => Keyword::DEFINE,
        146u16 => Keyword::DEFINED,
        147u16 => Keyword::DEFINER,
        148u16 => Keyword::DEGREE,
        _ => Keyword::DELETE,
    }
}

fn keyword_at_3(i: u16) -> (k: Keyword)
    requires
        150 <= i < 200,
    ensures
        k == spec_keyword_at_3(i),
{
    match i {
        150u16 => Keyword::DENSE_RANK,
        151u16 => Keyword::DEPTH,
        152u16 => Keyword::DEREF,
        153u16 => Keyword::DERIVED,
        154u16 => Keyword::DESC,
        155u16 => Keyword::DESCRIBE,
        156u16 => Keyword::DESCRIBE_CATALOG,
        157u16 => Keyword::DESCRIBE_NAME,
        158u16 => Keyword::DESCRIBE_PROCEDURE_SPECIFIC_CATALOG,
        159u16 => Keyword::DESCRIBE_PROCEDURE_SPECIFIC_NAME,
        160u16 => Keyword::DESCRIBE_PROCEDURE_SPECIFIC_SCHEMA,
        161u16 => Keyword::DESCRIBE_SCHEMA,
        162u16 => Keyword::DESCRIPTOR,
        163u16 => Keyword::DETERMINISTIC,
        164u16 => Keyword::DIAGNOSTICS,
        165u16 => Keyword::DISCONNECT,
        166u16 => Keyword::DISPATCH,
        167u16 => Keyword::DISTINCT,
        168u16 => Keyword::DOMAIN,
        169u16 => Keyword::DOUBLE,
        170u16 => Keyword::DROP,
        171u16 => Keyword::DYNAMIC,
        172u16 => Keyword::DYNAMIC_FUNCTION,
        173u16 => Keyword::DYNAMIC_FUNCTION_CODE,
        174u16 => Keyword::EACH,
        175u16 => Keyword::ELEMENT,
        176u16 => Keyword::ELSE,
        177u16 => Keyword::EMPTY,
        178u16 => Keyword::ENCODING,
        179u16 => Keyword::END,
        180u16 => Keyword::END_FRAME,
        181u16 => Keyword::END_PARTITION,
        182u16 => Keyword::ENFORCED,
        183u16 => Keyword::EQUALS,
        184u16 => Keyword::ERROR,
        185u16 => Keyword::ESCAPE,
        186u16 => Keyword::EVERY,
        187u16 => Keyword::EXCEPT,
        188u16 => Keyword::EXCLUDE,
        189u16 => Keyword::EXCLUDING,
        190u16 => Keyword::EXEC,
        191u16 => Keyword::EXECUTE,
        192u16 => Keyword::EXISTS,
        193u16 => Keyword::EXP,
        194u16 => Keyword::EXPRESSION,
        195u16 => Keyword::EXTERNAL,
        196u16 => Keyword::EXTRACT,
        197u16 => Keyword::FALSE,
        198u16 => Keyword::FETCH,
        _ => Keyword::FILTER,
    }
}

fn keyword_at_4(i: u16) -> (k: Keyword)
    requires
        200 <= i < 250,
    ensures
        k == spec_keyword_at_4(i),
{
    match i {
        200u16 => Keyword::FINAL,
        201u16 => Keyword::FINISH,
        202u16 => Keyword::FINISH_CATALOG,
        203u16 => Keyword::FINISH_NAME,
        204u16 => Keyword::FINISH_PROCEDURE_SPECIFIC_CATALOG,
        205u16 => Keyword::FINISH_PROCEDURE_SPECIFIC_NAME,
        206u16 => Keyword::FINISH_PROCEDURE_SPECIFIC_SCHEMA,
        207u16 => Keyword::FINISH_SCHEMA,
        208u16 => Keyword::FIRST,
        209u16 => Keyword::FIRST_VALUE,
        210u16 => Keyword::FLAG,
        211u16 => Keyword::FLOAT,
        212u16 => Keyword::FLOOR,
        213u16 => Keyword::FOLLOWING,
        214u16 => Keyword::FOR,
        215u16 => Keyword::FOREIGN,
        216u16 => Keyword::FORMAT,
        217u16 => Keyword::FORTRAN,
        218u16 => Keyword::FOUND,
        219u16 => Keyword::FRAME_ROW,
        220u16 => Keyword::FREE,
        221u16 => Keyword::FROM,
        222u16 => Keyword::FULFILL,
        223u16 => Keyword::FULFILL_CATALOG,
        224u16 => Keyword::FULFILL_NAME,
        225u16 => Keyword::FULFILL_PROCEDURE_SPECIFIC_CATALOG,
        226u16 => Keyword::FULFILL_PROCEDURE_SPECIFIC_NAME,
        227u16 => Keyword::FULFILL_PROCEDURE_SPECIFIC_SCHEMA,
        228u16 => Keyword::FULFILL_SCHEMA,
        229u16 => Keyword::FULL,
        230u16 => Keyword::FUNCTION,
        231u16 => Keyword::FUSION,
        232u16 => Keyword::G,
        233u16 => Keyword::GENERAL,
        234u16 => Keyword::GENERATED,
        235u16 => Keyword::GET,
        236u16 => Keyword::GLOBAL,
        237u16 => Keyword::GO,
        238u16 => Keyword::GOTO,
        239u16 => Keyword::GRANT,
        240u16 => Keyword::GRANTED,
        241u16 => Keyword::GROUP,
        242u16 => Keyword::GROUPING,
        243u16 => Keyword::GROUPS,
        244u16 => Keyword::HAS_PASS_THROUGH_COLUMNS,
        245u16 => Keyword::HAS_PASS_THRU_COLS,
        246u16 => Keyword::HAVING,
        247u16 => Keyword::HIERARCHY,
        248u16 => Keyword::HOLD,
        _ => Keyword::HOUR,
    }
}

fn keyword_at_5(i: u16) -> (k: Keyword)
    requires
        250 <= i < 300,
    ensures
        k == spec_keyword_at_5(i),
{
    match i {
        250u16 => Keyword::IDENTITY,
        251u16 => Keyword::IGNORE,
        252u16 => Keyword::IMMEDIATE,
        253u16 => Keyword::IMMEDIATELY,
        254u16 => Keyword::IMPLEMENTATION,
        255u16 => Keyword::IN,
        256u16 => Keyword::INCLUDING,
        257u16 => Keyword::INCREMENT,
        258u16 => Keyword::INDICATOR,
        259u16 => Keyword::INITIAL,
        260u16 => Keyword::INITIALLY,
        261u16 => Keyword::INNER,
        262u16 => Keyword::INOUT,
        263u16 => Keyword::INPUT,
        264u16 => Keyword::INSENSITIVE,
        265u16 => Keyword::INSERT,
        266u16 => Keyword::INSTANCE,
        267u16 => Keyword::INSTANTIABLE,
        268u16 => Keyword::INSTEAD,
        269u16 => Keyword::INT,
        270u16 => Keyword::INTEGER,
        271u16 => Keyword::INTERSECT,
        272u16 => Keyword::INTERSECTION,
        273u16 => Keyword::INTERVAL,
        274u16 => Keyword::INTO,
        275u16 => Keyword::INVOKER,
        276u16 => Keyword::IS,
        277u16 => Keyword::ISOLATION,
        278u16 => Keyword::IS_PRUNABLE,
        279u16 => Keyword::JOIN,
        280u16 => Keyword::JSON,
        281u16 => Keyword::JSON_ARRAY,
        282u16 => Keyword::JSON_ARRAYAGG,
        283u16 => Keyword::JSON_EXISTS,
        284u16 => Keyword::JSON_OBJECT,
        285u16 => Keyword::JSON_OBJECTAGG,
        286u16 => Keyword::JSON_QUERY,
        287u16 => Keyword::JSON_TABLE,
        288u16 => Keyword::JSON_TABLE_PRIMITIVE,
        289u16 => Keyword::JSON_VALUE,
        290u16 => Keyword::K,
        291u16 => Keyword::KEEP,
        292u16 => Keyword::KEY,
        293u16 => Keyword::KEY_MEMBER,
        294u16 => Keyword::KEYS,
        295u16 => Keyword::KEY_TYPE,
        296u16 => Keyword::LAG,
        297u16 => Keyword::LANGUAGE,
        298u16 => Keyword::LARGE,
        _ => Keyword::LAST,
    }
}

fn keyword_at_6(i: u16) -> (k: Keyword)
    requires
        300 <= i < 350,
    ensures
        k == spec_keyword_at_6(i),
{
    match i {
        300u16 => Keyword::LAST_VALUE,
        301u16 => Keyword::LATERAL,
        302u16 => Keyword::LEAD,
        303u16 => Keyword::LEADING,
        304u16 => Keyword::LEFT,
        305u16 => Keyword::LENGTH,
        306u16 => Keyword::LEVEL,
        307u16 => Keyword::LIKE,
        308u16 => Keyword::LIKE_REGEX,
        309u16 => Keyword::LISTAGG,
        310u16 => Keyword::LN,
        311u16 => Keyword::LOCAL,
        312u16 => Keyword::LOCALTIME,
        313u16 => Keyword::LOCALTIMESTAMP,
        314u16 => Keyword::LOCATOR,
        315u16 => Keyword::LOG,
        316u16 => Keyword::LOG10,
        317u16 => Keyword::LOWER,
        318u16 => Keyword::M,
        319u16 => Keyword::MAP,
        320u16 => Keyword::MATCH,
        321u16 => Keyword::MATCHED,
        322u16 => Keyword::MATCHES,
        323u16 => Keyword::MATCH_NUMBER,
        324u16 => Keyword::MATCH_RECOGNIZE,
        325u16 => Keyword::MAX,
        326u16 => Keyword::MAXVALUE,
        327u16 => Keyword::MEMBER,
        328u16 => Keyword::MERGE,
        329u16 => Keyword::MESSAGE_LENGTH,
        330u16 => Keyword::MESSAGE_OCTET_LENGTH,
        331u16 => Keyword::MESSAGE_TEXT,
        332u16 => Keyword::METHOD,
        333u16 => Keyword::MIN,
        334u16 => Keyword::MINUTE,
        335u16 => Keyword::MINVALUE,
        336u16 => Keyword::MOD,
        337u16 => Keyword::MODIFIES,
        338u16 => Keyword::MODULE,
        339u16 => Keyword::MONTH,
        340u16 => Keyword::MORE,
        341u16 => Keyword::MULTISET,
        342u16 => Keyword::MUMPS,
        343u16 => Keyword::NAME,
        344u16 => Keyword::NAMES,
        345u16 => Keyword::NATIONAL,
        346u16 => Keyword::NATURAL,
        347u16 => Keyword::NCHAR,
        348u16 => Keyword::NCLOB,
        _ => Keyword::NESTED,
    }
}

fn keyword_at_7(i: u16) -> (k: Keyword)
    requires
        350 <= i < 400,
    ensures
        k == spec_keyword_at_7(i),
{
    match i {
        350u16 => Keyword::NESTING,
        351u16 => Keyword::NEW,
        352u16 => Keyword::NEXT,
        353u16 => Keyword::NFC,
        354u16 => Keyword::NFD,
        355u16 => Keyword::NFKC,
        356u16 => Keyword::NFKD,
        357u16 => Keyword::NO,
        358u16 => Keyword::NONE,
        359u16 => Keyword::NORMALIZE,
        360u16 => Keyword::NORMALIZED,
        361u16 => Keyword::NOT,
        362u16 => Keyword::NTH_VALUE,
        363u16 => Keyword::NTILE,
        364u16 => Keyword::NULL,
        365u16 => Keyword::NULLABLE,
        366u16 => Keyword::NULLIF,
        367u16 => Keyword::NULLS,
        368u16 => Keyword::NUMBER,
        369u16 => Keyword::NUMERIC,
        370u16 => Keyword::OBJECT,
        371u16 => Keyword::OCCURRENCES_REGEX,
        372u16 => Keyword::OCTET_LENGTH,
        373u16 => Keyword::OCTETS,
        374u16 => Keyword::OF,
        375u16 => Keyword::OFFSET,
        376u16 => Keyword::OLD,
        377u16 => Keyword::OMIT,
        378u16 => Keyword::ON,
        379u16 => Keyword::ONE,
        380u16 => Keyword::ONLY,
        381u16 => Keyword::OPEN,
        382u16 => Keyword::OPTION,
        383u16 => Keyword::OPTIONS,
        384u16 => Keyword::OR,
        385u16 => Keyword::ORDER,
        386u16 => Keyword::ORDERING,
        387u16 => Keyword::ORDINALITY,
        388u16 => Keyword::OTHERS,
        389u16 => Keyword::OUT,
        390u16 => Keyword::OUTER,
        391u16 => Keyword::OUTPUT,
        392u16 => Keyword::OVER,
        393u16 => Keyword::OVERFLOW,
        394u16 => Keyword::OVERLAPS,
        395u16 => Keyword::OVERLAY,
        396u16 => Keyword::OVERRIDING,
        397u16 => Keyword::P,
        398u16 => Keyword::PAD,
        _ => Keyword::PARAMETER,
    }
}

fn keyword_at_8(i: u16) -> (k: Keyword)
    requires
        400 <= i < 450,
    ensures
        k == spec_keyword_at_8(i),
{
    match i {
        400u16 => Keyword::PARAMETER_MODE,
        401u16 => Keyword::PARAMETER_NAME,
        402u16 => Keyword::PARAMETER_ORDINAL_POSITION,
        403u16 => Keyword::PARAMETER_SPECIFIC_CATALOG,
        404u16 => Keyword::PARAMETER_SPECIFIC_NAME,
        405u16 => Keyword::PARAMETER_SPECIFIC_SCHEMA,
        406u16 => Keyword::PARTIAL,
        407u16 => Keyword::PARTITION,
        408u16 => Keyword::PASCAL,
        409u16 => Keyword::PASS,
        410u16 => Keyword::PASSING,
        411u16 => Keyword::PAST,
        412u16 => Keyword::PATH,
        413u16 => Keyword::PATTERN,
        414u16 => Keyword::PER,
        415u16 => Keyword::PERCENT,
        416u16 => Keyword::PERCENTILE_CONT,
        417u16 => Keyword::PERCENTILE_DISC,
        418u16 => Keyword::PERCENT_RANK,
        419u16 => Keyword::PERIOD,
        420u16 => Keyword::PLACING,
        421u16 => Keyword::PLAN,
        422u16 => Keyword::PLI,
        423u16 => Keyword::PORTION,
        424u16 => Keyword::POSITION,
        425u16 => Keyword::POSITION_REGEX,
        426u16 => Keyword::POWER,
        427u16 => Keyword::PRECEDES,
        428u16 => Keyword::PRECEDING,
        429u16 => Keyword::PRECISION,
        430u16 => Keyword::PREPARE,
        431u16 => Keyword::PRESERVE,
        432u16 => Keyword::PRIMARY,
        433u16 => Keyword::PRIOR,
        434u16 => Keyword::PRIVATE,
        435u16 => Keyword::PRIVATE_PARAMETERS,
        436u16 => Keyword::PRIVATE_PARAMS_S,
        437u16 => Keyword::PRIVILEGES,
        438u16 => Keyword::PROCEDURE,
        439u16 => Keyword::PRUNE,
        440u16 => Keyword::PTF,
        441u16 => Keyword::PUBLIC,
        442u16 => Keyword::QUOTES,
        443u16 => Keyword::RANGE,
        444u16 => Keyword::RANK,
        445u16 => Keyword::READ,
        446u16 => Keyword::READS,
        447u16 => Keyword::REAL,
        448u16 => Keyword::RECURSIVE,
        _ => Keyword::REF,
    }
}

fn keyword_at_9(i: u16) -> (k: Keyword)
    requires
        450 <= i < 500,
    ensures
        k == spec_keyword_at_9(i),
{
    match i {
        450u16 => Keyword::REFERENCES,
        451u16 => Keyword::REFERENCING,
        452u16 => Keyword::REGR_AVGX,
        453u16 => Keyword::REGR_AVGY,
        454u16 => Keyword::REGR_COUNT,
        455u16 => Keyword::REGR_INTERCEPT,
        456u16 => Keyword::REGR_R2,
        457u16 => Keyword::REGR_SLOPE,
        458u16 => Keyword::REGR_SXX,
        459u16 => Keyword::REGR_SXY,
        460u16 => Keyword::REGR_SYY,
        461u16 => Keyword::RELATIVE,
        462u16 => Keyword::RELEASE,
        463u16 => Keyword::REPEATABLE,
        464u16 => Keyword::RESPECT,
        465u16 => Keyword::RESTART,
        466u16 => Keyword::RESTRICT,
        467u16 => Keyword::RESULT,
        468u16 => Keyword::RET_ONLY_PASS_THRU,
        469u16 => Keyword::RETURN,
        470u16 => Keyword::RETURNED_CARDINALITY,
        471u16 => Keyword::RETURNED_LENGTH,
        472u16 => Keyword::RETURNED_OCTET_LENGTH,
        473u16 => Keyword::RETURNED_SQLSTATE,
        474u16 => Keyword::RETURNING,
        475u16 => Keyword::RETURNS,
        476u16 => Keyword::RETURNS_ONLY_PASS_THROUGH,
        477u16 => Keyword::REVOKE,
        478u16 => Keyword::RIGHT,
        479u16 => Keyword::ROLE,
        480u16 => Keyword::ROLLBACK,
        481u16 => Keyword::ROLLUP,
        482u16 => Keyword::ROUTINE,
        483u16 => Keyword::ROUTINE_CATALOG,
        484u16 => Keyword::ROUTINE_NAME,
        485u16 => Keyword::ROUTINE_SCHEMA,
        486u16 => Keyword::ROW,
        487u16 => Keyword::ROW_COUNT,
        488u16 => Keyword::ROW_NUMBER,
        489u16 => Keyword::ROWS,
        490u16 => Keyword::RUNNING,
        491u16 => Keyword::SAVEPOINT,
        492u16 => Keyword::SCALAR,
        493u16 => Keyword::SCALE,
        494u16 => Keyword::SCHEMA,
        495u16 => Keyword::SCHEMA_NAME,
        496u16 => Keyword::SCOPE,
        497u16 => Keyword::SCOPE_CATALOG,
        498u16 => Keyword::SCOPE_NAME,
        _ => Keyword::SCOPE_SCHEMA,
    }
}

fn keyword_at_10(i: u16) -> (k: Keyword)
    requires
        500 <= i < 550,
    ensures
        k == spec_keyword_at_10(i),
{
    match i {
        500u16 => Keyword::SCROLL,
        501u16 => Keyword::SEARCH,
        502u16 => Keyword::SECOND,
        503u16 => Keyword::SECTION,
        504u16 => Keyword::SECURITY,
        505u16 => Keyword::SEEK,
        506u16 => Keyword::SELECT,
        507u16 => Keyword::SELF,
        508u16 => Keyword::SENSITIVE,
        509u16 => Keyword::SEQUENCE,
        510u16 => Keyword::SERIALIZABLE,
        511u16 => Keyword::SERVER_NAME,
        512u16 => Keyword::SESSION,
        513u16 => Keyword::SESSION_USER,
        514u16 => Keyword::SET,
        515u16 => Keyword::SETS,
        516u16 => Keyword::SHOW,
        517u16 => Keyword::SIMILAR,
        518u16 => Keyword::SIMPLE,
        519u16 => Keyword::SIN,
        520u16 => Keyword::SINH,
        521u16 => Keyword::SIZE,
        522u16 => Keyword::SKIP,
        523u16 => Keyword::SMALLINT,
        524u16 => Keyword::SOME,
        525u16 => Keyword::SOURCE,
        526u16 => Keyword::SPACE,
        527u16 => Keyword::SPECIFIC,
        528u16 => Keyword::SPECIFIC_NAME,
        529u16 => Keyword::SPECIFICTYPE,
        530u16 => Keyword::SQL,
        531u16 => Keyword::SQLEXCEPTION,
        532u16 => Keyword::SQLSTATE,
        533u16 => Keyword::SQLWARNING,
        534u16 => Keyword::SQRT,
        535u16 => Keyword::START,
        536u16 => Keyword::START_CATALOG,
        537u16 => Keyword::START_NAME,
        538u16 => Keyword::START_PROCEDURE_SPECIFIC_CATALOG,
        539u16 => Keyword::START_PROCEDURE_SPECIFIC_NAME,
        540u16 => Keyword::START_PROCEDURE_SPECIFIC_SCHEMA,
        541u16 => Keyword::START_SCHEMA,
        542u16 => Keyword::STATE,
        543u16 => Keyword::STATEMENT,
        544u16 => Keyword::STATIC,
        545u16 => Keyword::STDDEV_POP,
        546u16 => Keyword::STDDEV_SAMP,
        547u16 => Keyword::STRING,
        548u16 => Keyword::STRUCTURE,
        _ => Keyword::STYLE,
    }
}

fn keyword_at_11(i: u16) -> (k: Keyword)
    requires
        550 <= i < 600,
    ensures
        k == spec_keyword_at_11(i),
{
    match i {
        550u16 => Keyword::SUBCLASS_ORIGIN,
        551u16 => Keyword::SUBMULTISET,
        552u16 => Keyword::SUBSET,
        553u16 => Keyword::SUBSTRING,
        554u16 => Keyword::SUBSTRING_REGEX,
        555u16 => Keyword::SUCCEEDS,
        556u16 => Keyword::SUM,
        557u16 => Keyword::SYMMETRIC,
        558u16 => Keyword::SYSTEM,
        559u16 => Keyword::SYSTEM_TIME,
        560u16 => Keyword::SYSTEM_USER,
        561u16 => Keyword::T,
        562u16 => Keyword::TABLE,
        563u16 => Keyword::TABLE_NAME,
        564u16 => Keyword::TABLESAMPLE,
        565u16 => Keyword::TABLE_SEMANTICS,
        566u16 => Keyword::TAN,
        567u16 => Keyword::TANH,
        568u16 => Keyword::TEMPORARY,
        569u16 => Keyword::THEN,
        570u16 => Keyword::THROUGH,
        571u16 => Keyword::TIES,
        572u16 => Keyword::TIME,
        573u16 => Keyword::TIMESTAMP,
        574u16 => Keyword::TIMEZONE_HOUR,
        575u16 => Keyword::TIMEZONE_MINUTE,
        576u16 => Keyword::TO,
        577u16 => Keyword::TOP_LEVEL_COUNT,
        578u16 => Keyword::TRAILING,
        579u16 => Keyword::TRANSACTION,
        580u16 => Keyword::TRANSACTION_ACTIVE,
        581u16 => Keyword::TRANSACTIONS_COMMITTED,
        582u16 => Keyword::TRANSACTIONS_ROLLED_BACK,
        583u16 => Keyword::TRANSFORM,
        584u16 => Keyword::TRANSFORMS,
        585u16 => Keyword::TRANSLATE,
        586u16 => Keyword::TRANSLATE_REGEX,
        587u16 => Keyword::TRANSLATION,
        588u16 => Keyword::TREAT,
        589u16 => Keyword::TRIGGER,
        590u16 => Keyword::TRIGGER_CATALOG,
        591u16 => Keyword::TRIGGER_NAME,
        592u16 => Keyword::TRIGGER_SCHEMA,
        593u16 => Keyword::TRIM,
        594u16 => Keyword::TRIM_ARRAY,
        595u16 => Keyword::TRUE,
        596u16 => Keyword::TRUNCATE,
        597u16 => Keyword::TYPE,
        598u16 => Keyword::UESCAPE,
        _ => Keyword::UNBOUNDED,
    }
}

fn keyword_at_12(i: u16) -> (k: Keyword)
    requires
        600 <= i < 651,
    ensures
        k == spec_keyword_at_12(i),
{
    match i {
        600u16 => Keyword::UNCOMMITTED,
        601u16 => Keyword::UNCONDITIONAL,
        602u16 => Keyword::UNDER,
        603u16 => Keyword::UNION,
        604u16 => Keyword::UNIQUE,
        605u16 => Keyword::UNKNOWN,
        606u16 => Keyword::UNNAMED,
        607u16 => Keyword::UNNEST,
        608u16 => Keyword::UPDATE,
        609u16 => Keyword::UPPER,
        610u16 => Keyword::USAGE,
        611u16 => Keyword::USER,
        612u16 => Keyword::USER_DEFINED_TYPE_CATALOG,
        613u16 => Keyword::USER_DEFINED_TYPE_CODE,
        614u16 => Keyword::USER_DEFINED_TYPE_NAME,
        615u16 => Keyword::USER_DEFINED_TYPE_SCHEMA,
        616u16 => Keyword::USING,
        617u16 => Keyword::UTF16,
        618u16 => Keyword::UTF32,
        619u16 => Keyword::UTF8,
        620u16 => Keyword::VALUE,
        621u16 => Keyword::VALUE_OF,
        622u16 => Keyword::VALUES,
        623u16 => Keyword::VARBINARY,
        624u16 => Keyword::VARCHAR,
        625u16 => Keyword::VAR_POP,
        626u16 => Keyword::VAR_SAMP,
        627u16 => Keyword::VARYING,
        628u16 => Keyword::VERSIONING,
        629u16 => Keyword::VIEW,
        630u16 => Keyword::WHEN,
        631u16 => Keyword::WHENEVER,
        632u16 => Keyword::WHERE,
        633u16 => Keyword::WIDTH_BUCKET,
        634u16 => Keyword::WINDOW,
        635u16 => Keyword::WITH,
        636u16 => Keyword::WITHIN,
        637u16 => Keyword::WITHOUT,
        638u16 => Keyword::WORK,
        639u16 => Keyword::WRAPPER,
        640u16 => Keyword::WRITE,
        641u16 => Keyword::YEAR,
        642u16 => Keyword::ZONE,
        643u16 => Keyword::DATABASE,
        644u16 => Keyword::DATETIME,
        645u16 => Keyword::ILIKE,
        646u16 => Keyword::LIMIT,
        647u16 => Keyword::REPLACE,
        648u16 => Keyword::XOR,
        649u16 => Keyword::IF,
        _ => Keyword::INDEX,
    }
}

/// The keyword at position `i` of the keyword table.
pub fn keyword_at(i: u16) -> (k: Keyword)
    requires
        i < KEYWORD_COUNT,
    ensures
        k == spec_keyword_at(i),
{
    if i < 50 {
        keyword_at_0(i)
    } else if i < 100 {
        keyword_at_1(i)
    } else if i < 150 {
        keyword_at_2(i)
    } else if i < 200 {
        keyword_at_3(i)
    } else if i < 250 {
        keyword_at_4(i)
    } else if i < 300 {
        keyword_at_5(i)
    } else if i < 350 {
        keyword_at_6(i)
    } else if i < 400 {
        keyword_at_7(i)
    } else if i < 450 {
        keyword_at_8(i)
    } else if i < 500 {
        keyword_at_9(i)
    } else if i < 550 {
        keyword_at_10(i)
    } else if i < 600 {
        keyword_at_11(i)
    } else {
        keyword_at_12(i)
    }
}

fn keyword_name_0(k: Keyword) -> (s: &'static str)
    requires
        spec_keyword_group(k) == 0,
    ensures
        s@ == spec_keyword_name_0(k),
{
    match k {
        Keyword::A => "A",
        Keyword::ABS => "ABS",
        Keyword::ABSOLUTE => "ABSOLUTE",
        Keyword::ACOS => "ACOS",
        Keyword::ACTION => "ACTION",
        Keyword::ADA => "ADA",
        Keyword::ADD => "ADD",
        Keyword::ADMIN => "ADMIN",
        Keyword::AFTER => "AFTER",
        Keyword::ALL => "ALL",
        Keyword::ALLOCATE => "ALLOCATE",
        Keyword::ALTER => "ALTER",
        Keyword::ALWAYS => "ALWAYS",
        Keyword::AND => "AND",
        Keyword::ANY => "ANY",
        Keyword::ARE => "ARE",
        Keyword::ARRAY => "ARRAY",
        Keyword::ARRAY_AGG => "ARRAY_AGG",
        Keyword::ARRAY_MAX_CARDINALITY => "ARRAY_MAX_CARDINALITY",
        Keyword::AS => "AS",
        Keyword::ASC => "ASC",
        Keyword::ASENSITIVE => "ASENSITIVE",
        Keyword::ASIN => "ASIN",
        Keyword::ASSERTION => "ASSERTION",
        Keyword::ASSIGNMENT => "ASSIGNMENT",
        Keyword::ASYMMETRIC => "ASYMMETRIC",
        Keyword::AT => "AT",
        Keyword::ATAN => "ATAN",
        Keyword::ATOMIC => "ATOMIC",
        Keyword::ATTRIBUTE => "ATTRIBUTE",
        Keyword::ATTRIBUTES => "ATTRIBUTES",
        Keyword::AUTHORIZATION => "AUTHORIZATION",
        Keyword::AVG => "AVG",
        Keyword::BEFORE => "BEFORE",
        Keyword::BEGIN => "BEGIN",
        Keyword::BEGIN_FRAME => "BEGIN_FRAME",
        Keyword::BEGIN_PARTITION => "BEGIN_PARTITION",
        Keyword::BERNOULLI => "BERNOULLI",
        Keyword::BETWEEN => "BETWEEN",
        Keyword::BIGINT => "BIGINT",
        Keyword::BINARY => "BINARY",
        Keyword::BLOB => "BLOB",
        Keyword::BOOLEAN => "BOOLEAN",
        Keyword::BOTH => "BOTH",
        Keyword::BREADTH => "BREADTH",
        Keyword::BY => "BY",
        Keyword::C => "C",
        Keyword::CALL => "CALL",
        Keyword::CALLED => "CALLED",
        Keyword::CARDINALITY => "CARDINALITY",
        _ => "",
    }
}

fn keyword_name_1(k: Keyword) -> (s: &'static str)
    requires
        spec_keyword_group(k) == 1,
    ensures
        s@ == spec_keyword_name_1(k),
{
    match k {
        Keyword::CASCADE => "CASCADE",
        Keyword::CASCADED => "CASCADED",
        Keyword::CASE => "CASE",
        Keyword::CAST => "CAST",
        Keyword::CATALOG => "CATALOG",
        Keyword::CATALOG_NAME => "CATALOG_NAME",
        Keyword::CEIL => "CEIL",
        Keyword::CEILING => "CEILING",
        Keyword::CHAIN => "CHAIN",
        Keyword::CHAINING => "CHAINING",
        Keyword::CHAR => "CHAR",
        Keyword::CHARACTER => "CHARACTER",
        Keyword::CHARACTERISTICS => "CHARACTERISTICS",
        Keyword::CHARACTER_LENGTH => "CHARACTER_LENGTH",
        Keyword::CHARACTERS => "CHARACTERS",
        Keyword::CHARACTER_SET_CATALOG => "CHARACTER_SET_CATALOG",
        Keyword::CHARACTER_SET_NAME => "CHARACTER_SET_NAME",
        Keyword::CHARACTER_SET_SCHEMA => "CHARACTER_SET_SCHEMA",
        Keyword::CHAR_LENGTH => "CHAR_LENGTH",
        Keyword::CHECK => "CHECK",
        Keyword::CLASSIFIER => "CLASSIFIER",
        Keyword::CLASS_ORIGIN => "CLASS_ORIGIN",
        Keyword::CLOB => "CLOB",
        Keyword::CLOSE => "CLOSE",
        Keyword::COALESCE => "COALESCE",
        Keyword::COBOL => "COBOL",
        Keyword::COLLATE => "COLLATE",
        Keyword::COLLATION => "COLLATION",
        Keyword::COLLATION_CATALOG => "COLLATION_CATALOG",
        Keyword::COLLATION_NAME => "COLLATION_NAME",
        Keyword::COLLATION_SCHEMA => "COLLATION_SCHEMA",
        Keyword::COLLECT => "COLLECT",
        Keyword::COLUMN => "COLUMN",
        Keyword::COLUMN_NAME => "COLUMN_NAME",
        Keyword::COLUMNS => "COLUMNS",
        Keyword::COMMAND_FUNCTION => "COMMAND_FUNCTION",
        Keyword::COMMAND_FUNCTION_CODE => "COMMAND_FUNCTION_CODE",
        Keyword::COMMIT => "COMMIT",
        Keyword::COMMITTED => "COMMITTED",
        Keyword::CONDITION => "CONDITION",
        Keyword::CONDITIONAL => "CONDITIONAL",
        Keyword::CONDITION_NUMBER => "CONDITION_NUMBER",
        Keyword::CONNECT => "CONNECT",
        Keyword::CONNECTION => "CONNECTION",
        Keyword::CONNECTION_NAME => "CONNECTION_NAME",
        Keyword::CONSTRAINT => "CONSTRAINT",
        Keyword::CONSTRAINT_CATALOG => "CONSTRAINT_CATALOG",
        Keyword::CONSTRAINT_NAME => "CONSTRAINT_NAME",
        Keyword::CONSTRAINTS => "CONSTRAINTS",
        Keyword::CONSTRAINT_SCHEMA => "CONSTRAINT_SCHEMA",
        _ => "",
    }
}

fn keyword_name_2(k: Keyword) -> (s: &'static str)
    requires
        spec_keyword_group(k) == 2,
    ensures
        s@ == spec_keyword_name_2(k),
{
    match k {
        Keyword::CONSTRUCTOR => "CONSTRUCTOR",
        Keyword::CONTAINS => "CONTAINS",
        Keyword::CONTINUE => "CONTINUE",
        Keyword::CONVERT => "CONVERT",
        Keyword::COPY => "COPY",
        Keyword::CORR => "CORR",
        Keyword::CORRESPONDING => "CORRESPONDING",
        Keyword::COS => "COS",
        Keyword::COSH => "COSH",
        Keyword::COUNT => "COUNT",
        Keyword::COVAR_POP => "COVAR_POP",
        Keyword::COVAR_SAMP => "COVAR_SAMP",
        Keyword::CREATE => "CREATE",
        Keyword::CROSS => "CROSS",
        Keyword::CUBE => "CUBE",
        Keyword::CUME_DIST => "CUME_DIST",
        Keyword::CURRENT => "CURRENT",
        Keyword::CURRENT_CATALOG => "CURRENT_CATALOG",
        Keyword::CURRENT_DATE => "CURRENT_DATE",
        Keyword::CURRENT_DEFAULT_TRANSFORM_GROUP => "CURRENT_DEFAULT_TRANSFORM_GROUP",
        Keyword::CURRENT_PATH => "CURRENT_PATH",
        Keyword::CURRENT_ROLE => "CURRENT_ROLE",
        Keyword::CURRENT_ROW => "CURRENT_ROW",
        Keyword::CURRENT_SCHEMA => "CURRENT_SCHEMA",
        Keyword::CURRENT_TIME => "CURRENT_TIME",
        Keyword::CURRENT_TIMESTAMP => "CURRENT_TIMESTAMP",
        Keyword::CURRENT_TRANSFORM_GROUP_FOR_TYPE => "CURRENT_TRANSFORM_GROUP_FOR_TYPE",
        Keyword::CURRENT_USER => "CURRENT_USER",
        Keyword::CURSOR => "CURSOR",
        Keyword::CURSOR_NAME => "CURSOR_NAME",
        Keyword::CYCLE => "CYCLE",
        Keyword::DATA => "DATA",
        Keyword::DATE => "DATE",
        Keyword::DATETIME_INTERVAL_CODE => "DATETIME_INTERVAL_CODE",
        Keyword::DATETIME_INTERVAL_PRECISION => "DATETIME_INTERVAL_PRECISION",
        Keyword::DAY => "DAY",
        Keyword::DEALLOCATE => "DEALLOCATE",
        Keyword::DEC => "DEC",
        Keyword::DECFLOAT => "DECFLOAT",
        Keyword::DECIMAL => "DECIMAL",
        Keyword::DECLARE => "DECLARE",
        Keyword::DEFAULT => "DEFAULT",
        Keyword::DEFAULTS => "DEFAULTS",
        Keyword::DEFERRABLE => "DEFERRABLE",
        Keyword::DEFERRED => "DEFERRED",
        Keyword::DEFINE => "DEFINE",
        Keyword::DEFINED => "DEFINED",
        Keyword::DEFINER => "DEFINER",
        Keyword::DEGREE => "DEGREE",
        Keyword::DELETE => "DELETE",
        _ => "",
    }
}

fn keyword_name_3(k: Keyword) -> (s: &'static str)
    requires
        spec_keyword_group(k) == 3,
    ensures
        s@ == spec_keyword_name_3(k),
{
    match k {
        Keyword::DENSE_RANK => "DENSE_RANK",
        Keyword::DEPTH => "DEPTH",
        Keyword::DEREF => "DEREF",
        Keyword::DERIVED => "DERIVED",
        Keyword::DESC => "DESC",
        Keyword::DESCRIBE => "DESCRIBE",
        Keyword::DESCRIBE_CATALOG => "DESCRIBE_CATALOG",
        Keyword::DESCRIBE_NAME => "DESCRIBE_NAME",
        Keyword::DESCRIBE_PROCEDURE_SPECIFIC_CATALOG => "DESCRIBE_PROCEDURE_SPECIFIC_CATALOG",
        Keyword::DESCRIBE_PROCEDURE_SPECIFIC_NAME => "DESCRIBE_PROCEDURE_SPECIFIC_NAME",
        Keyword::DESCRIBE_PROCEDURE_SPECIFIC_SCHEMA => "DESCRIBE_PROCEDURE_SPECIFIC_SCHEMA",
        Keyword::DESCRIBE_SCHEMA => "DESCRIBE_SCHEMA",
        Keyword::DESCRIPTOR => "DESCRIPTOR",
        Keyword::DETERMINISTIC => "DETERMINISTIC",
        Keyword::DIAGNOSTICS => "DIAGNOSTICS",
        Keyword::DISCONNECT => "DISCONNECT",
        Keyword::DISPATCH => "DISPATCH",
        Keyword::DISTINCT => "DISTINCT",
        Keyword::DOMAIN => "DOMAIN",
        Keyword::DOUBLE => "DOUBLE",
        Keyword::DROP => "DROP",
        Keyword::DYNAMIC => "DYNAMIC",
        Keyword::DYNAMIC_FUNCTION => "DYNAMIC_FUNCTION",
        Keyword::DYNAMIC_FUNCTION_CODE => "DYNAMIC_FUNCTION_CODE",
        Keyword::EACH => "EACH",
        Keyword::ELEMENT => "ELEMENT",
        Keyword::ELSE => "ELSE",
        Keyword::EMPTY => "EMPTY",
        Keyword::ENCODING => "ENCODING",
        Keyword::END => "END",
        Keyword::END_FRAME => "END_FRAME",
        Keyword::END_PARTITION => "END_PARTITION",
        Keyword::ENFORCED => "ENFORCED",
        Keyword::EQUALS => "EQUALS",
        Keyword::ERROR => "ERROR",
        Keyword::ESCAPE => "ESCAPE",
        Keyword::EVERY => "EVERY",
        Keyword::EXCEPT => "EXCEPT",
        Keyword::EXCLUDE => "EXCLUDE",
        Keyword::EXCLUDING => "EXCLUDING",
        Keyword::EXEC => "EXEC",
        Keyword::EXECUTE => "EXECUTE",
        Keyword::EXISTS => "EXISTS",
        Keyword::EXP => "EXP",
        Keyword::EXPRESSION => "EXPRESSION",
        Keyword::EXTERNAL => "EXTERNAL",
        Keyword::EXTRACT => "EXTRACT",
        Keyword::FALSE => "FALSE",
        Keyword::FETCH => "FETCH",
        Keyword::FILTER => "FILTER",
        _ => "",
    }
}

fn keyword_name_4(k: Keyword) -> (s: &'static str)
    requires
        spec_keyword_group(k) == 4,
    ensures
        s@ == spec_keyword_name_4(k),
{
    match k {
        Keyword::FINAL => "FINAL",
        Keyword::FINISH => "FINISH",
        Keyword::FINISH_CATALOG => "FINISH_CATALOG",
        Keyword::FINISH_NAME => "FINISH_NAME",
        Keyword::FINISH_PROCEDURE_SPECIFIC_CATALOG => "FINISH_PROCEDURE_SPECIFIC_CATALOG",
        Keyword::FINISH_PROCEDURE_SPECIFIC_NAME => "FINISH_PROCEDURE_SPECIFIC_NAME",
        Keyword::FINISH_PROCEDURE_SPECIFIC_SCHEMA => "FINISH_PROCEDURE_SPECIFIC_SCHEMA",
        Keyword::FINISH_SCHEMA => "FINISH_SCHEMA",
        Keyword::FIRST => "FIRST",
        Keyword::FIRST_VALUE => "FIRST_VALUE",
        Keyword::FLAG => "FLAG",
        Keyword::FLOAT => "FLOAT",
        Keyword::FLOOR => "FLOOR",
        Keyword::FOLLOWING => "FOLLOWING",
        Keyword::FOR => "FOR",
        Keyword::FOREIGN => "FOREIGN",
        Keyword::FORMAT => "FORMAT",
        Keyword::FORTRAN => "FORTRAN",
        Keyword::FOUND => "FOUND",
        Keyword::FRAME_ROW => "FRAME_ROW",
        Keyword::FREE => "FREE",
        Keyword::FROM => "FROM",
        Keyword::FULFILL => "FULFILL",
        Keyword::FULFILL_CATALOG => "FULFILL_CATALOG",
        Keyword::FULFILL_NAME => "FULFILL_NAME",
        Keyword::FULFILL_PROCEDURE_SPECIFIC_CATALOG => "FULFILL_PROCEDURE_SPECIFIC_CATALOG",
        Keyword::FULFILL_PROCEDURE_SPECIFIC_NAME => "FULFILL_PROCEDURE_SPECIFIC_NAME",
        Keyword::FULFILL_PROCEDURE_SPECIFIC_SCHEMA => "FULFILL_PROCEDURE_SPECIFIC_SCHEMA",
        Keyword::FULFILL_SCHEMA => "FULFILL_SCHEMA",
        Keyword::FULL => "FULL",
        Keyword::FUNCTION => "FUNCTION",
        Keyword::FUSION => "FUSION",
        Keyword::G => "G",
        Keyword::GENERAL => "GENERAL",
        Keyword::GENERATED => "GENERATED",
        Keyword::GET => "GET",
        Keyword::GLOBAL => "GLOBAL",
        Keyword::GO => "GO",
        Keyword::GOTO => "GOTO",
        Keyword::GRANT => "GRANT",
        Keyword::GRANTED => "GRANTED",
        Keyword::GROUP => "GROUP",
        Keyword::GROUPING => "GROUPING",
        Keyword::GROUPS => "GROUPS",
        Keyword::HAS_PASS_THROUGH_COLUMNS => "HAS_PASS_THROUGH_COLUMNS",
        Keyword::HAS_PASS_THRU_COLS => "HAS_PASS_THRU_COLS",
        Keyword::HAVING => "HAVING",
        Keyword::HIERARCHY => "HIERARCHY",
        Keyword::HOLD => "HOLD",
        Keyword::HOUR => "HOUR",
        _ => "",
    }
}

fn keyword_name_5(k: Keyword) -> (s: &'static str)
    requires
        spec_keyword_group(k) == 5,
    ensures
        s@ == spec_keyword_name_5(k),
{
    match k {
        Keyword::IDENTITY => "IDENTITY",
        Keyword::IGNORE => "IGNORE",
        Keyword::IMMEDIATE => "IMMEDIATE",
        Keyword::IMMEDIATELY => "IMMEDIATELY",
        Keyword::IMPLEMENTATION => "IMPLEMENTATION",
        Keyword::IN => "IN",
        Keyword::INCLUDING => "INCLUDING",
        Keyword::INCREMENT => "INCREMENT",
        Keyword::INDICATOR => "INDICATOR",
        Keyword::INITIAL => "INITIAL",
        Keyword::INITIALLY => "INITIALLY",
        Keyword::INNER => "INNER",
        Keyword::INOUT => "INOUT",
        Keyword::INPUT => "INPUT",
        Keyword::INSENSITIVE => "INSENSITIVE",
        Keyword::INSERT => "INSERT",
        Keyword::INSTANCE => "INSTANCE",
        Keyword::INSTANTIABLE => "INSTANTIABLE",
        Keyword::INSTEAD => "INSTEAD",
        Keyword::INT => "INT",
        Keyword::INTEGER => "INTEGER",
        Keyword::INTERSECT => "INTERSECT",
        Keyword::INTERSECTION => "INTERSECTION",
        Keyword::INTERVAL => "INTERVAL",
        Keyword::INTO => "INTO",
        Keyword::INVOKER => "INVOKER",
        Keyword::IS => "IS",
        Keyword::ISOLATION => "ISOLATION",
        Keyword::IS_PRUNABLE => "IS_PRUNABLE",
        Keyword::JOIN => "JOIN",
        Keyword::JSON => "JSON",
        Keyword::JSON_ARRAY => "JSON_ARRAY",
        Keyword::JSON_ARRAYAGG => "JSON_ARRAYAGG",
        Keyword::JSON_EXISTS => "JSON_EXISTS",
        Keyword::JSON_OBJECT => "JSON_OBJECT",
        Keyword::JSON_OBJECTAGG => "JSON_OBJECTAGG",
        Keyword::JSON_QUERY => "JSON_QUERY",
        Keyword::JSON_TABLE => "JSON_TABLE",
        Keyword::JSON_TABLE_PRIMITIVE => "JSON_TABLE_PRIMITIVE",
        Keyword::JSON_VALUE => "JSON_VALUE",
        Keyword::K => "K",
        Keyword::KEEP => "KEEP",
        Keyword::KEY => "KEY",
        Keyword::KEY_MEMBER => "KEY_MEMBER",
        Keyword::KEYS => "KEYS",
        Keyword::KEY_TYPE => "KEY_TYPE",
        Keyword::LAG => "LAG",
        Keyword::LANGUAGE => "LANGUAGE",
        Keyword::LARGE => "LARGE",
        Keyword::LAST => "LAST",
        _ => "",
    }
}

fn keyword_name_6(k: Keyword) -> (s: &'static str)
    requires
        spec_keyword_group(k) == 6,
    ensures
        s@ == spec_keyword_name_6(k),
{
    match k {
        Keyword::LAST_VALUE => "LAST_VALUE",
        Keyword::LATERAL => "LATERAL",
        Keyword::LEAD => "LEAD",
        Keyword::LEADING => "LEADING",
        Keyword::LEFT => "LEFT",
        Keyword::LENGTH => "LENGTH",
        Keyword::LEVEL => "LEVEL",
        Keyword::LIKE => "LIKE",
        Keyword::LIKE_REGEX => "LIKE_REGEX",
        Keyword::LISTAGG => "LISTAGG",
        Keyword::LN => "LN",
        Keyword::LOCAL => "LOCAL",
        Keyword::LOCALTIME => "LOCALTIME",
        Keyword::LOCALTIMESTAMP => "LOCALTIMESTAMP",
        Keyword::LOCATOR => "LOCATOR",
        Keyword::LOG => "LOG",
        Keyword::LOG10 => "LOG10",
        Keyword::LOWER => "LOWER",
        Keyword::M => "M",
        Keyword::MAP => "MAP",
        Keyword::MATCH => "MATCH",
        Keyword::MATCHED => "MATCHED",
        Keyword::MATCHES => "MATCHES",
        Keyword::MATCH_NUMBER => "MATCH_NUMBER",
        Keyword::MATCH_RECOGNIZE => "MATCH_RECOGNIZE",
        Keyword::MAX => "MAX",
        Keyword::MAXVALUE => "MAXVALUE",
        Keyword::MEMBER => "MEMBER",
        Keyword::MERGE => "MERGE",
        Keyword::MESSAGE_LENGTH => "MESSAGE_LENGTH",
        Keyword::MESSAGE_OCTET_LENGTH => "MESSAGE_OCTET_LENGTH",
        Keyword::MESSAGE_TEXT => "MESSAGE_TEXT",
        Keyword::METHOD => "METHOD",
        Keyword::MIN => "MIN",
        Keyword::MINUTE => "MINUTE",
        Keyword::MINVALUE => "MINVALUE",
        Keyword::MOD => "MOD",
        Keyword::MODIFIES => "MODIFIES",
        Keyword::MODULE => "MODULE",
        Keyword::MONTH => "MONTH",
        Keyword::MORE => "MORE",
        Keyword::MULTISET => "MULTISET",
        Keyword::MUMPS => "MUMPS",
        Keyword::NAME => "NAME",
        Keyword::NAMES => "NAMES",
        Keyword::NATIONAL => "NATIONAL",
        Keyword::NATURAL => "NATURAL",
        Keyword::NCHAR => "NCHAR",
        Keyword::NCLOB => "NCLOB",
        Keyword::NESTED => "NESTED",
        _ => "",
    }
}

fn keyword_name_7(k: Keyword) -> (s: &'static str)
    requires
        spec_keyword_group(k) == 7,
    ensures
        s@ == spec_keyword_name_7(k),
{
    match k {
        Keyword::NESTING => "NESTING",
        Keyword::NEW => "NEW",
        Keyword::NEXT => "NEXT",
        Keyword::NFC => "NFC",
        Keyword::NFD => "NFD",
        Keyword::NFKC => "NFKC",
        Keyword::NFKD => "NFKD",
        Keyword::NO => "NO",
        Keyword::NONE => "NONE",
        Keyword::NORMALIZE => "NORMALIZE",
        Keyword::NORMALIZED => "NORMALIZED",
        Keyword::NOT => "NOT",
        Keyword::NTH_VALUE => "NTH_VALUE",
        Keyword::NTILE => "NTILE",
        Keyword::NULL => "NULL",
        Keyword::NULLABLE => "NULLABLE",
        Keyword::NULLIF => "NULLIF",
        Keyword::NULLS => "NULLS",
        Keyword::NUMBER => "NUMBER",
        Keyword::NUMERIC => "NUMERIC",
        Keyword::OBJECT => "OBJECT",
        Keyword::OCCURRENCES_REGEX => "OCCURRENCES_REGEX",
        Keyword::OCTET_LENGTH => "OCTET_LENGTH",
        Keyword::OCTETS => "OCTETS",
        Keyword::OF => "OF",
        Keyword::OFFSET => "OFFSET",
        Keyword::OLD => "OLD",
        Keyword::OMIT => "OMIT",
        Keyword::ON => "ON",
        Keyword::ONE => "ONE",
        Keyword::ONLY => "ONLY",
        Keyword::OPEN => "OPEN",
        Keyword::OPTION => "OPTION",
        Keyword::OPTIONS => "OPTIONS",
        Keyword::OR => "OR",
        Keyword::ORDER => "ORDER",
        Keyword::ORDERING => "ORDERING",
        Keyword::ORDINALITY => "ORDINALITY",
        Keyword::OTHERS => "OTHERS",
        Keyword::OUT => "OUT",
        Keyword::OUTER => "OUTER",
        Keyword::OUTPUT => "OUTPUT",
        Keyword::OVER => "OVER",
        Keyword::OVERFLOW => "OVERFLOW",
        Keyword::OVERLAPS => "OVERLAPS",
        Keyword::OVERLAY => "OVERLAY",
        Keyword::OVERRIDING => "OVERRIDING",
        Keyword::P => "P",
        Keyword::PAD => "PAD",
        Keyword::PARAMETER => "PARAMETER",
        _ => "",
    }
}

fn keyword_name_8(k: Keyword) -> (s: &'static str)
    requires
        spec_keyword_group(k) == 8,
    ensures
        s@ == spec_keyword_name_8(k),
{
    match k {
        Keyword::PARAMETER_MODE => "PARAMETER_MODE",
        Keyword::PARAMETER_NAME => "PARAMETER_NAME",
        Keyword::PARAMETER_ORDINAL_POSITION => "PARAMETER_ORDINAL_POSITION",
        Keyword::PARAMETER_SPECIFIC_CATALOG => "PARAMETER_SPECIFIC_CATALOG",
        Keyword::PARAMETER_SPECIFIC_NAME => "PARAMETER_SPECIFIC_NAME",
        Keyword::PARAMETER_SPECIFIC_SCHEMA => "PARAMETER_SPECIFIC_SCHEMA",
        Keyword::PARTIAL => "PARTIAL",
        Keyword::PARTITION => "PARTITION",
        Keyword::PASCAL => "PASCAL",
        Keyword::PASS => "PASS",
        Keyword::PASSING => "PASSING",
        Keyword::PAST => "PAST",
        Keyword::PATH => "PATH",
        Keyword::PATTERN => "PATTERN",
        Keyword::PER => "PER",
        Keyword::PERCENT => "PERCENT",
        Keyword::PERCENTILE_CONT => "PERCENTILE_CONT",
        Keyword::PERCENTILE_DISC => "PERCENTILE_DISC",
        Keyword::PERCENT_RANK => "PERCENT_RANK",
        Keyword::PERIOD => "PERIOD",
        Keyword::PLACING => "PLACING",
        Keyword::PLAN => "PLAN",
        Keyword::PLI => "PLI",
        Keyword::PORTION => "PORTION",
        Keyword::POSITION => "POSITION",
        Keyword::POSITION_REGEX => "POSITION_REGEX",
        Keyword::POWER => "POWER",
        Keyword::PRECEDES => "PRECEDES",
        Keyword::PRECEDING => "PRECEDING",
        Keyword::PRECISION => "PRECISION",
        Keyword::PREPARE => "PREPARE",
        Keyword::PRESERVE => "PRESERVE",
        Keyword::PRIMARY => "PRIMARY",
        Keyword::PRIOR => "PRIOR",
        Keyword::PRIVATE => "PRIVATE",
        Keyword::PRIVATE_PARAMETERS => "PRIVATE_PARAMETERS",
        Keyword::PRIVATE_PARAMS_S => "PRIVATE_PARAMS_S",
        Keyword::PRIVILEGES => "PRIVILEGES",
        Keyword::PROCEDURE => "PROCEDURE",
        Keyword::PRUNE => "PRUNE",
        Keyword::PTF => "PTF",
        Keyword::PUBLIC => "PUBLIC",
        Keyword::QUOTES => "QUOTES",
        Keyword::RANGE => "RANGE",
        Keyword::RANK => "RANK",
        Keyword::READ => "READ",
        Keyword::READS => "READS",
        Keyword::REAL => "REAL",
        Keyword::RECURSIVE => "RECURSIVE",
        Keyword::REF => "REF",
        _ => "",
    }
}

fn keyword_name_9(k: Keyword) -> (s: &'static str)
    requires
        spec_keyword_group(k) == 9,
    ensures
        s@ == spec_keyword_name_9(k),
{
    match k {
        Keyword::REFERENCES => "REFERENCES",
        Keyword::REFERENCING => "REFERENCING",
        Keyword::REGR_AVGX => "REGR_AVGX",
        Keyword::REGR_AVGY => "REGR_AVGY",
        Keyword::REGR_COUNT => "REGR_COUNT",
        Keyword::REGR_INTERCEPT => "REGR_INTERCEPT",
        Keyword::REGR_R2 => "REGR_R2",
        Keyword::REGR_SLOPE => "REGR_SLOPE",
        Keyword::REGR_SXX => "REGR_SXX",
        Keyword::REGR_SXY => "REGR_SXY",
        Keyword::REGR_SYY => "REGR_SYY",
        Keyword::RELATIVE => "RELATIVE",
        Keyword::RELEASE => "RELEASE",
        Keyword::REPEATABLE => "REPEATABLE",
        Keyword::RESPECT => "RESPECT",
        Keyword::RESTART => "RESTART",
        Keyword::RESTRICT => "RESTRICT",
        Keyword::RESULT => "RESULT",
        Keyword::RET_ONLY_PASS_THRU => "RET_ONLY_PASS_THRU",
        Keyword::RETURN => "RETURN",
        Keyword::RETURNED_CARDINALITY => "RETURNED_CARDINALITY",
        Keyword::RETURNED_LENGTH => "RETURNED_LENGTH",
        Keyword::RETURNED_OCTET_LENGTH => "RETURNED_OCTET_LENGTH",
        Keyword::RETURNED_SQLSTATE => "RETURNED_SQLSTATE",
        Keyword::RETURNING => "RETURNING",
        Keyword::RETURNS => "RETURNS",
        Keyword::RETURNS_ONLY_PASS_THROUGH => "RETURNS_ONLY_PASS_THROUGH",
        Keyword::REVOKE => "REVOKE",
        Keyword::RIGHT => "RIGHT",
        Keyword::ROLE => "ROLE",
        Keyword::ROLLBACK => "ROLLBACK",
        Keyword::ROLLUP => "ROLLUP",
        Keyword::ROUTINE => "ROUTINE",
        Keyword::ROUTINE_CATALOG => "ROUTINE_CATALOG",
        Keyword::ROUTINE_NAME => "ROUTINE_NAME",
        Keyword::ROUTINE_SCHEMA => "ROUTINE_SCHEMA",
        Keyword::ROW => "ROW",
        Keyword::ROW_COUNT => "ROW_COUNT",
        Keyword::ROW_NUMBER => "ROW_NUMBER",
        Keyword::ROWS => "ROWS",
        Keyword::RUNNING => "RUNNING",
        Keyword::SAVEPOINT => "SAVEPOINT",
        Keyword::SCALAR => "SCALAR",
        Keyword::SCALE => "SCALE",
        Keyword::SCHEMA => "SCHEMA",
        Keyword::SCHEMA_NAME => "SCHEMA_NAME",
        Keyword::SCOPE => "SCOPE",
        Keyword::SCOPE_CATALOG => "SCOPE_CATALOG",
        Keyword::SCOPE_NAME => "SCOPE_NAME",
        Keyword::SCOPE_SCHEMA => "SCOPE_SCHEMA",
        _ => "",
    }
}

fn keyword_name_10(k: Keyword) -> (s: &'static str)
    requires
        spec_keyword_group(k) == 10,
    ensures
        s@ == spec_keyword_name_10(k),
{
    match k {
        Keyword::SCROLL => "SCROLL",
        Keyword::SEARCH => "SEARCH",
        Keyword::SECOND => "SECOND",
        Keyword::SECTION => "SECTION",
        Keyword::SECURITY => "SECURITY",
        Keyword::SEEK => "SEEK",
        Keyword::SELECT => "SELECT",
        Keyword::SELF => "SELF",
        Keyword::SENSITIVE => "SENSITIVE",
        Keyword::SEQUENCE => "SEQUENCE",
        Keyword::SERIALIZABLE => "SERIALIZABLE",
        Keyword::SERVER_NAME => "SERVER_NAME",
        Keyword::SESSION => "SESSION",
        Keyword::SESSION_USER => "SESSION_USER",
        Keyword::SET => "SET",
        Keyword::SETS => "SETS",
        Keyword::SHOW => "SHOW",
        Keyword::SIMILAR => "SIMILAR",
        Keyword::SIMPLE => "SIMPLE",
        Keyword::SIN => "SIN",
        Keyword::SINH => "SINH",
        Keyword::SIZE => "SIZE",
        Keyword::SKIP => "SKIP",
        Keyword::SMALLINT => "SMALLINT",
        Keyword::SOME => "SOME",
        Keyword::SOURCE => "SOURCE",
        Keyword::SPACE => "SPACE",
        Keyword::SPECIFIC => "SPECIFIC",
        Keyword::SPECIFIC_NAME => "SPECIFIC_NAME",
        Keyword::SPECIFICTYPE => "SPECIFICTYPE",
        Keyword::SQL => "SQL",
        Keyword::SQLEXCEPTION => "SQLEXCEPTION",
        Keyword::SQLSTATE => "SQLSTATE",
        Keyword::SQLWARNING => "SQLWARNING",
        Keyword::SQRT => "SQRT",
        Keyword::START => "START",
        Keyword::START_CATALOG => "START_CATALOG",
        Keyword::START_NAME => "START_NAME",
        Keyword::START_PROCEDURE_SPECIFIC_CATALOG => "START_PROCEDURE_SPECIFIC_CATALOG",
        Keyword::START_PROCEDURE_SPECIFIC_NAME => "START_PROCEDURE_SPECIFIC_NAME",
        Keyword::START_PROCEDURE_SPECIFIC_SCHEMA => "START_PROCEDURE_SPECIFIC_SCHEMA",
        Keyword::START_SCHEMA => "START_SCHEMA",
        Keyword::STATE => "STATE",
        Keyword::STATEMENT => "STATEMENT",
        Keyword::STATIC => "STATIC",
        Keyword::STDDEV_POP => "STDDEV_POP",
        Keyword::STDDEV_SAMP => "STDDEV_SAMP",
        Keyword::STRING => "STRING",
        Keyword::STRUCTURE => "STRUCTURE",
        Keyword::STYLE => "STYLE",
        _ => "",
    }
}

fn keyword_name_11(k: Keyword) -> (s: &'static str)
    requires
        spec_keyword_group(k) == 11,
    ensures
        s@ == spec_keyword_name_11(k),
{
    match k {
        Keyword::SUBCLASS_ORIGIN => "SUBCLASS_ORIGIN",
        Keyword::SUBMULTISET => "SUBMULTISET",
        Keyword::SUBSET => "SUBSET",
        Keyword::SUBSTRING => "SUBSTRING",
        Keyword::SUBSTRING_REGEX => "SUBSTRING_REGEX",
        Keyword::SUCCEEDS => "SUCCEEDS",
        Keyword::SUM => "SUM",
        Keyword::SYMMETRIC => "SYMMETRIC",
        Keyword::SYSTEM => "SYSTEM",
        Keyword::SYSTEM_TIME => "SYSTEM_TIME",
        Keyword::SYSTEM_USER => "SYSTEM_USER",
        Keyword::T => "T",
        Keyword::TABLE => "TABLE",
        Keyword::TABLE_NAME => "TABLE_NAME",
        Keyword::TABLESAMPLE => "TABLESAMPLE",
        Keyword::TABLE_SEMANTICS => "TABLE_SEMANTICS",
        Keyword::TAN => "TAN",
        Keyword::TANH => "TANH",
        Keyword::TEMPORARY => "TEMPORARY",
        Keyword::THEN => "THEN",
        Keyword::THROUGH => "THROUGH",
        Keyword::TIES => "TIES",
        Keyword::TIME => "TIME",
        Keyword::TIMESTAMP => "TIMESTAMP",
        Keyword::TIMEZONE_HOUR => "TIMEZONE_HOUR",
        Keyword::TIMEZONE_MINUTE => "TIMEZONE_MINUTE",
        Keyword::TO => "TO",
        Keyword::TOP_LEVEL_COUNT => "TOP_LEVEL_COUNT",
        Keyword::TRAILING => "TRAILING",
        Keyword::TRANSACTION => "TRANSACTION",
        Keyword::TRANSACTION_ACTIVE => "TRANSACTION_ACTIVE",
        Keyword::TRANSACTIONS_COMMITTED => "TRANSACTIONS_COMMITTED",
        Keyword::TRANSACTIONS_ROLLED_BACK => "TRANSACTIONS_ROLLED_BACK",
        Keyword::TRANSFORM => "TRANSFORM",
        Keyword::TRANSFORMS => "TRANSFORMS",
        Keyword::TRANSLATE => "TRANSLATE",
        Keyword::TRANSLATE_REGEX => "TRANSLATE_REGEX",
        Keyword::TRANSLATION => "TRANSLATION",
        Keyword::TREAT => "TREAT",
        Keyword::TRIGGER => "TRIGGER",
        Keyword::TRIGGER_CATALOG => "TRIGGER_CATALOG",
        Keyword::TRIGGER_NAME => "TRIGGER_NAME",
        Keyword::TRIGGER_SCHEMA => "TRIGGER_SCHEMA",
        Keyword::TRIM => "TRIM",
        Keyword::TRIM_ARRAY => "TRIM_ARRAY",
        Keyword::TRUE => "TRUE",
        Keyword::TRUNCATE => "TRUNCATE",
        Keyword::TYPE => "TYPE",
        Keyword::UESCAPE => "UESCAPE",
        Keyword::UNBOUNDED => "UNBOUNDED",
        _ => "",
    }
}

fn keyword_name_12(k: Keyword) -> (s: &'static str)
    requires
        spec_keyword_group(k) == 12,
    ensures
        s@ == spec_keyword_name_12(k),
{
    match k {
        Keyword::UNCOMMITTED => "UNCOMMITTED",
        Keyword::UNCONDITIONAL => "UNCONDITIONAL",
        Keyword::UNDER => "UNDER",
        Keyword::UNION => "UNION",
        Keyword::UNIQUE => "UNIQUE",
        Keyword::UNKNOWN => "UNKNOWN",
        Keyword::UNNAMED => "UNNAMED",
        Keyword::UNNEST => "UNNEST",
        Keyword::UPDATE => "UPDATE",
        Keyword::UPPER => "UPPER",
        Keyword::USAGE => "USAGE",
        Keyword::USER => "USER",
        Keyword::USER_DEFINED_TYPE_CATALOG => "USER_DEFINED_TYPE_CATALOG",
        Keyword::USER_DEFINED_TYPE_CODE => "USER_DEFINED_TYPE_CODE",
        Keyword::USER_DEFINED_TYPE_NAME => "USER_DEFINED_TYPE_NAME",
        Keyword::USER_DEFINED_TYPE_SCHEMA => "USER_DEFINED_TYPE_SCHEMA",
        Keyword::USING => "USING",
        Keyword::UTF16 => "UTF16",
        Keyword::UTF32 => "UTF32",
        Keyword::UTF8 => "UTF8",
        Keyword::VALUE => "VALUE",
        Keyword::VALUE_OF => "VALUE_OF",
        Keyword::VALUES => "VALUES",
        Keyword::VARBINARY => "VARBINARY",
        Keyword::VARCHAR => "VARCHAR",
        Keyword::VAR_POP => "VAR_POP",
        Keyword::VAR_SAMP => "VAR_SAMP",
        Keyword::VARYING => "VARYING",
        Keyword::VERSIONING => "VERSIONING",
        Keyword::VIEW => "VIEW",
        Keyword::WHEN => "WHEN",
        Keyword::WHENEVER => "WHENEVER",
        Keyword::WHERE => "WHERE",
        Keyword::WIDTH_BUCKET => "WIDTH_BUCKET",
        Keyword::WINDOW => "WINDOW",
        Keyword::WITH => "WITH",
        Keyword::WITHIN => "WITHIN",
        Keyword::WITHOUT => "WITHOUT",
        Keyword::WORK => "WORK",
        Keyword::WRAPPER => "WRAPPER",
        Keyword::WRITE => "WRITE",
        Keyword::YEAR => "YEAR",
        Keyword::ZONE => "ZONE",
        Keyword::DATABASE => "DATABASE",
        Keyword::DATETIME => "DATETIME",
        Keyword::ILIKE => "ILIKE",
        Keyword::LIMIT => "LIMIT",
        Keyword::REPLACE => "REPLACE",
        Keyword::XOR => "XOR",
        Keyword::IF => "IF",
        Keyword::INDEX => "INDEX",
        _ => "",
    }
}

fn keyword_group(k: Keyword) -> (g: u8)
    ensures
        g as int == spec_keyword_group(k),
{
    match k {
        Keyword::A | Keyword::ABS | Keyword::ABSOLUTE | Keyword::ACOS | Keyword::ACTION | Keyword::ADA | Keyword::ADD | Keyword::ADMIN | Keyword::AFTER | Keyword::ALL | Keyword::ALLOCATE | Keyword::ALTER | Keyword::ALWAYS | Keyword::AND | Keyword::ANY | Keyword::ARE | Keyword::ARRAY | Keyword::ARRAY_AGG | Keyword::ARRAY_MAX_CARDINALITY | Keyword::AS | Keyword::ASC | Keyword::ASENSITIVE | Keyword::ASIN | Keyword::ASSERTION | Keyword::ASSIGNMENT | Keyword::ASYMMETRIC | Keyword::AT | Keyword::ATAN | Keyword::ATOMIC | Keyword::ATTRIBUTE | Keyword::ATTRIBUTES | Keyword::AUTHORIZATION | Keyword::AVG | Keyword::BEFORE | Keyword::BEGIN | Keyword::BEGIN_FRAME | Keyword::BEGIN_PARTITION | Keyword::BERNOULLI | Keyword::BETWEEN | Keyword::BIGINT | Keyword::BINARY | Keyword::BLOB | Keyword::BOOLEAN | Keyword::BOTH | Keyword::BREADTH | Keyword::BY | Keyword::C | Keyword::CALL | Keyword::CALLED | Keyword::CARDINALITY => 0,
        Keyword::CASCADE | Keyword::CASCADED | Keyword::CASE | Keyword::CAST | Keyword::CATALOG | Keyword::CATALOG_NAME | Keyword::CEIL | Keyword::CEILING | Keyword::CHAIN | Keyword::CHAINING | Keyword::CHAR | Keyword::CHARACTER | Keyword::CHARACTERISTICS | Keyword::CHARACTER_LENGTH | Keyword::CHARACTERS | Keyword::CHARACTER_SET_CATALOG | Keyword::CHARACTER_SET_NAME | Keyword::CHARACTER_SET_SCHEMA | Keyword::CHAR_LENGTH | Keyword::CHECK | Keyword::CLASSIFIER | Keyword::CLASS_ORIGIN | Keyword::CLOB | Keyword::CLOSE | Keyword::COALESCE | Keyword::COBOL | Keyword::COLLATE | Keyword::COLLATION | Keyword::COLLATION_CATALOG | Keyword::COLLATION_NAME | Keyword::COLLATION_SCHEMA | Keyword::COLLECT | Keyword::COLUMN | Keyword::COLUMN_NAME | Keyword::COLUMNS | Keyword::COMMAND_FUNCTION | Keyword::COMMAND_FUNCTION_CODE | Keyword::COMMIT | Keyword::COMMITTED | Keyword::CONDITION | Keyword::CONDITIONAL | Keyword::CONDITION_NUMBER | Keyword::CONNECT | Keyword::CONNECTION | Keyword::CONNECTION_NAME | Keyword::CONSTRAINT | Keyword::CONSTRAINT_CATALOG | Keyword::CONSTRAINT_NAME | Keyword::CONSTRAINTS | Keyword::CONSTRAINT_SCHEMA => 1,
        Keyword::CONSTRUCTOR | Keyword::CONTAINS | Keyword::CONTINUE | Keyword::CONVERT | Keyword::COPY | Keyword::CORR | Keyword::CORRESPONDING | Keyword::COS | Keyword::COSH | Keyword::COUNT | Keyword::COVAR_POP | Keyword::COVAR_SAMP | Keyword::CREATE | Keyword::CROSS | Keyword::CUBE | Keyword::CUME_DIST | Keyword::CURRENT | Keyword::CURRENT_CATALOG | Keyword::CURRENT_DATE | Keyword::CURRENT_DEFAULT_TRANSFORM_GROUP | Keyword::CURRENT_PATH | Keyword::CURRENT_ROLE | Keyword::CURRENT_ROW | Keyword::CURRENT_SCHEMA | Keyword::CURRENT_TIME | Keyword::CURRENT_TIMESTAMP | Keyword::CURRENT_TRANSFORM_GROUP_FOR_TYPE | Keyword::CURRENT_USER | Keyword::CURSOR | Keyword::CURSOR_NAME | Keyword::CYCLE | Keyword::DATA | Keyword::DATE | Keyword::DATETIME_INTERVAL_CODE | Keyword::DATETIME_INTERVAL_PRECISION | Keyword::DAY | Keyword::DEALLOCATE | Keyword::DEC | Keyword::DECFLOAT | Keyword::DECIMAL | Keyword::DECLARE | Keyword::DEFAULT | Keyword::DEFAULTS | Keyword::DEFERRABLE | Keyword::DEFERRED | Keyword::DEFINE | Keyword::DEFINED | Keyword::DEFINER | Keyword::DEGREE | Keyword::DELETE => 2,
        Keyword::DENSE_RANK | Keyword::DEPTH | Keyword::DEREF | Keyword::DERIVED | Keyword::DESC | Keyword::DESCRIBE | Keyword::DESCRIBE_CATALOG | Keyword::DESCRIBE_NAME | Keyword::DESCRIBE_PROCEDURE_SPECIFIC_CATALOG | Keyword::DESCRIBE_PROCEDURE_SPECIFIC_NAME | Keyword::DESCRIBE_PROCEDURE_SPECIFIC_SCHEMA | Keyword::DESCRIBE_SCHEMA | Keyword::DESCRIPTOR | Keyword::DETERMINISTIC | Keyword::DIAGNOSTICS | Keyword::DISCONNECT | Keyword::DISPATCH | Keyword::DISTINCT | Keyword::DOMAIN | Keyword::DOUBLE | Keyword::DROP | Keyword::DYNAMIC | Keyword::DYNAMIC_FUNCTION | Keyword::DYNAMIC_FUNCTION_CODE | Keyword::EACH | Keyword::ELEMENT | Keyword::ELSE | Keyword::EMPTY | Keyword::ENCODING | Keyword::END | Keyword::END_FRAME | Keyword::END_PARTITION | Keyword::ENFORCED | Keyword::EQUALS | Keyword::ERROR | Keyword::ESCAPE | Keyword::EVERY | Keyword::EXCEPT | Keyword::EXCLUDE | Keyword::EXCLUDING | Keyword::EXEC | Keyword::EXECUTE | Keyword::EXISTS | Keyword::EXP | Keyword::EXPRESSION | Keyword::EXTERNAL | Keyword::EXTRACT | Keyword::FALSE | Keyword::FETCH | Keyword::FILTER => 3,
        Keyword::FINAL | Keyword::FINISH | Keyword::FINISH_CATALOG | Keyword::FINISH_NAME | Keyword::FINISH_PROCEDURE_SPECIFIC_CATALOG | Keyword::FINISH_PROCEDURE_SPECIFIC_NAME | Keyword::FINISH_PROCEDURE_SPECIFIC_SCHEMA | Keyword::FINISH_SCHEMA | Keyword::FIRST | Keyword::FIRST_VALUE | Keyword::FLAG | Keyword::FLOAT | Keyword::FLOOR | Keyword::FOLLOWING | Keyword::FOR | Keyword::FOREIGN | Keyword::FORMAT | Keyword::FORTRAN | Keyword::FOUND | Keyword::FRAME_ROW | Keyword::FREE | Keyword::FROM | Keyword::FULFILL | Keyword::FULFILL_CATALOG | Keyword::FULFILL_NAME | Keyword::FULFILL_PROCEDURE_SPECIFIC_CATALOG | Keyword::FULFILL_PROCEDURE_SPECIFIC_NAME | Keyword::FULFILL_PROCEDURE_SPECIFIC_SCHEMA | Keyword::FULFILL_SCHEMA | Keyword::FULL | Keyword::FUNCTION | Keyword::FUSION | Keyword::G | Keyword::GENERAL | Keyword::GENERATED | Keyword::GET | Keyword::GLOBAL | Keyword::GO | Keyword::GOTO | Keyword::GRANT | Keyword::GRANTED | Keyword::GROUP | Keyword::GROUPING | Keyword::GROUPS | Keyword::HAS_PASS_THROUGH_COLUMNS | Keyword::HAS_PASS_THRU_COLS | Keyword::HAVING | Keyword::HIERARCHY | Keyword::HOLD | Keyword::HOUR => 4,
        Keyword::IDENTITY | Keyword::IGNORE | Keyword::IMMEDIATE | Keyword::IMMEDIATELY | Keyword::IMPLEMENTATION | Keyword::IN | Keyword::INCLUDING | Keyword::INCREMENT | Keyword::INDICATOR | Keyword::INITIAL | Keyword::INITIALLY | Keyword::INNER | Keyword::INOUT | Keyword::INPUT | Keyword::INSENSITIVE | Keyword::INSERT | Keyword::INSTANCE | Keyword::INSTANTIABLE | Keyword::INSTEAD | Keyword::INT | Keyword::INTEGER | Keyword::INTERSECT | Keyword::INTERSECTION | Keyword::INTERVAL | Keyword::INTO | Keyword::INVOKER | Keyword::IS | Keyword::ISOLATION | Keyword::IS_PRUNABLE | Keyword::JOIN | Keyword::JSON | Keyword::JSON_ARRAY | Keyword::JSON_ARRAYAGG | Keyword::JSON_EXISTS | Keyword::JSON_OBJECT | Keyword::JSON_OBJECTAGG | Keyword::JSON_QUERY | Keyword::JSON_TABLE | Keyword::JSON_TABLE_PRIMITIVE | Keyword::JSON_VALUE | Keyword::K | Keyword::KEEP | Keyword::KEY | Keyword::KEY_MEMBER | Keyword::KEYS | Keyword::KEY_TYPE | Keyword::LAG | Keyword::LANGUAGE | Keyword::LARGE | Keyword::LAST => 5,
        Keyword::LAST_VALUE | Keyword::LATERAL | Keyword::LEAD | Keyword::LEADING | Keyword::LEFT | Keyword::LENGTH | Keyword::LEVEL | Keyword::LIKE | Keyword::LIKE_REGEX | Keyword::LISTAGG | Keyword::LN | Keyword::LOCAL | Keyword::LOCALTIME | Keyword::LOCALTIMESTAMP | Keyword::LOCATOR | Keyword::LOG | Keyword::LOG10 | Keyword::LOWER | Keyword::M | Keyword::MAP | Keyword::MATCH | Keyword::MATCHED | Keyword::MATCHES | Keyword::MATCH_NUMBER | Keyword::MATCH_RECOGNIZE | Keyword::MAX | Keyword::MAXVALUE | Keyword::MEMBER | Keyword::MERGE | Keyword::MESSAGE_LENGTH | Keyword::MESSAGE_OCTET_LENGTH | Keyword::MESSAGE_TEXT | Keyword::METHOD | Keyword::MIN | Keyword::MINUTE | Keyword::MINVALUE | Keyword::MOD | Keyword::MODIFIES | Keyword::MODULE | Keyword::MONTH | Keyword::MORE | Keyword::MULTISET | Keyword::MUMPS | Keyword::NAME | Keyword::NAMES | Keyword::NATIONAL | Keyword::NATURAL | Keyword::NCHAR | Keyword::NCLOB | Keyword::NESTED => 6,
        Keyword::NESTING | Keyword::NEW | Keyword::NEXT | Keyword::NFC | Keyword::NFD | Keyword::NFKC | Keyword::NFKD | Keyword::NO | Keyword::NONE | Keyword::NORMALIZE | Keyword::NORMALIZED | Keyword::NOT | Keyword::NTH_VALUE | Keyword::NTILE | Keyword::NULL | Keyword::NULLABLE | Keyword::NULLIF | Keyword::NULLS | Keyword::NUMBER | Keyword::NUMERIC | Keyword::OBJECT | Keyword::OCCURRENCES_REGEX | Keyword::OCTET_LENGTH | Keyword::OCTETS | Keyword::OF | Keyword::OFFSET | Keyword::OLD | Keyword::OMIT | Keyword::ON | Keyword::ONE | Keyword::ONLY | Keyword::OPEN | Keyword::OPTION | Keyword::OPTIONS | Keyword::OR | Keyword::ORDER | Keyword::ORDERING | Keyword::ORDINALITY | Keyword::OTHERS | Keyword::OUT | Keyword::OUTER | Keyword::OUTPUT | Keyword::OVER | Keyword::OVERFLOW | Keyword::OVERLAPS | Keyword::OVERLAY | Keyword::OVERRIDING | Keyword::P | Keyword::PAD | Keyword::PARAMETER => 7,
        Keyword::PARAMETER_MODE | Keyword::PARAMETER_NAME | Keyword::PARAMETER_ORDINAL_POSITION | Keyword::PARAMETER_SPECIFIC_CATALOG | Keyword::PARAMETER_SPECIFIC_NAME | Keyword::PARAMETER_SPECIFIC_SCHEMA | Keyword::PARTIAL | Keyword::PARTITION | Keyword::PASCAL | Keyword::PASS | Keyword::PASSING | Keyword::PAST | Keyword::PATH | Keyword::PATTERN | Keyword::PER | Keyword::PERCENT | Keyword::PERCENTILE_CONT | Keyword::PERCENTILE_DISC | Keyword::PERCENT_RANK | Keyword::PERIOD | Keyword::PLACING | Keyword::PLAN | Keyword::PLI | Keyword::PORTION | Keyword::POSITION | Keyword::POSITION_REGEX | Keyword::POWER | Keyword::PRECEDES | Keyword::PRECEDING | Keyword::PRECISION | Keyword::PREPARE | Keyword::PRESERVE | Keyword::PRIMARY | Keyword::PRIOR | Keyword::PRIVATE | Keyword::PRIVATE_PARAMETERS | Keyword::PRIVATE_PARAMS_S | Keyword::PRIVILEGES | Keyword::PROCEDURE | Keyword::PRUNE | Keyword::PTF | Keyword::PUBLIC | Keyword::QUOTES | Keyword::RANGE | Keyword::RANK | Keyword::READ | Keyword::READS | Keyword::REAL | Keyword::RECURSIVE | Keyword::REF => 8,
        Keyword::REFERENCES | Keyword::REFERENCING | Keyword::REGR_AVGX | Keyword::REGR_AVGY | Keyword::REGR_COUNT | Keyword::REGR_INTERCEPT | Keyword::REGR_R2 | Keyword::REGR_SLOPE | Keyword::REGR_SXX | Keyword::REGR_SXY | Keyword::REGR_SYY | Keyword::RELATIVE | Keyword::RELEASE | Keyword::REPEATABLE | Keyword::RESPECT | Keyword::RESTART | Keyword::RESTRICT | Keyword::RESULT | Keyword::RET_ONLY_PASS_THRU | Keyword::RETURN | Keyword::RETURNED_CARDINALITY | Keyword::RETURNED_LENGTH | Keyword::RETURNED_OCTET_LENGTH | Keyword::RETURNED_SQLSTATE | Keyword::RETURNING | Keyword::RETURNS | Keyword::RETURNS_ONLY_PASS_THROUGH | Keyword::REVOKE | Keyword::RIGHT | Keyword::ROLE | Keyword::ROLLBACK | Keyword::ROLLUP | Keyword::ROUTINE | Keyword::ROUTINE_CATALOG | Keyword::ROUTINE_NAME | Keyword::ROUTINE_SCHEMA | Keyword::ROW | Keyword::ROW_COUNT | Keyword::ROW_NUMBER | Keyword::ROWS | Keyword::RUNNING | Keyword::SAVEPOINT | Keyword::SCALAR | Keyword::SCALE | Keyword::SCHEMA | Keyword::SCHEMA_NAME | Keyword::SCOPE | Keyword::SCOPE_CATALOG | Keyword::SCOPE_NAME | Keyword::SCOPE_SCHEMA => 9,
        Keyword::SCROLL | Keyword::SEARCH | Keyword::SECOND | Keyword::SECTION | Keyword::SECURITY | Keyword::SEEK | Keyword::SELECT | Keyword::SELF | Keyword::SENSITIVE | Keyword::SEQUENCE | Keyword::SERIALIZABLE | Keyword::SERVER_NAME | Keyword::SESSION | Keyword::SESSION_USER | Keyword::SET | Keyword::SETS | Keyword::SHOW | Keyword::SIMILAR | Keyword::SIMPLE | Keyword::SIN | Keyword::SINH | Keyword::SIZE | Keyword::SKIP | Keyword::SMALLINT | Keyword::SOME | Keyword::SOURCE | Keyword::SPACE | Keyword::SPECIFIC | Keyword::SPECIFIC_NAME | Keyword::SPECIFICTYPE | Keyword::SQL | Keyword::SQLEXCEPTION | Keyword::SQLSTATE | Keyword::SQLWARNING | Keyword::SQRT | Keyword::START | Keyword::START_CATALOG | Keyword::START_NAME | Keyword::START_PROCEDURE_SPECIFIC_CATALOG | Keyword::START_PROCEDURE_SPECIFIC_NAME | Keyword::START_PROCEDURE_SPECIFIC_SCHEMA | Keyword::START_SCHEMA | Keyword::STATE | Keyword::STATEMENT | Keyword::STATIC | Keyword::STDDEV_POP | Keyword::STDDEV_SAMP | Keyword::STRING | Keyword::STRUCTURE | Keyword::STYLE => 10,
        Keyword::SUBCLASS_ORIGIN | Keyword::SUBMULTISET | Keyword::SUBSET | Keyword::SUBSTRING | Keyword::SUBSTRING_REGEX | Keyword::SUCCEEDS | Keyword::SUM | Keyword::SYMMETRIC | Keyword::SYSTEM | Keyword::SYSTEM_TIME | Keyword::SYSTEM_USER | Keyword::T | Keyword::TABLE | Keyword::TABLE_NAME | Keyword::TABLESAMPLE | Keyword::TABLE_SEMANTICS | Keyword::TAN | Keyword::TANH | Keyword::TEMPORARY | Keyword::THEN | Keyword::THROUGH | Keyword::TIES | Keyword::TIME | Keyword::TIMESTAMP | Keyword::TIMEZONE_HOUR | Keyword::TIMEZONE_MINUTE | Keyword::TO | Keyword::TOP_LEVEL_COUNT | Keyword::TRAILING | Keyword::TRANSACTION | Keyword::TRANSACTION_ACTIVE | Keyword::TRANSACTIONS_COMMITTED | Keyword::TRANSACTIONS_ROLLED_BACK | Keyword::TRANSFORM | Keyword::TRANSFORMS | Keyword::TRANSLATE | Keyword::TRANSLATE_REGEX | Keyword::TRANSLATION | Keyword::TREAT | Keyword::TRIGGER | Keyword::TRIGGER_CATALOG | Keyword::TRIGGER_NAME | Keyword::TRIGGER_SCHEMA | Keyword::TRIM | Keyword::TRIM_ARRAY | Keyword::TRUE | Keyword::TRUNCATE | Keyword::TYPE | Keyword::UESCAPE | Keyword::UNBOUNDED => 11,
        Keyword::UNCOMMITTED | Keyword::UNCONDITIONAL | Keyword::UNDER | Keyword::UNION | Keyword::UNIQUE | Keyword::UNKNOWN | Keyword::UNNAMED | Keyword::UNNEST | Keyword::UPDATE | Keyword::UPPER | Keyword::USAGE | Keyword::USER | Keyword::USER_DEFINED_TYPE_CATALOG | Keyword::USER_DEFINED_TYPE_CODE | Keyword::USER_DEFINED_TYPE_NAME | Keyword::USER_DEFINED_TYPE_SCHEMA | Keyword::USING | Keyword::UTF16 | Keyword::UTF32 | Keyword::UTF8 | Keyword::VALUE | Keyword::VALUE_OF | Keyword::VALUES | Keyword::VARBINARY | Keyword::VARCHAR | Keyword::VAR_POP | Keyword::VAR_SAMP | Keyword::VARYING | Keyword::VERSIONING | Keyword::VIEW | Keyword::WHEN | Keyword::WHENEVER | Keyword::WHERE | Keyword::WIDTH_BUCKET | Keyword::WINDOW | Keyword::WITH | Keyword::WITHIN | Keyword::WITHOUT | Keyword::WORK | Keyword::WRAPPER | Keyword::WRITE | Keyword::YEAR | Keyword::ZONE | Keyword::DATABASE | Keyword::DATETIME | Keyword::ILIKE | Keyword::LIMIT | Keyword::REPLACE | Keyword::XOR | Keyword::IF | Keyword::INDEX => 12,
    }
}

impl Keyword {
    /// The canonical (upper case) text of the keyword.
    pub fn as_str(&self) -> (s: &'static str)
        ensures
            s@ == spec_keyword_name(*self),
    {
        let g = keyword_group(*self);
        if g == 0 {
            keyword_name_0(*self)
        } else if g == 1 {
            keyword_name_1(*self)
        } else if g == 2 {
            keyword_name_2(*self)
        } else if g == 3 {
            keyword_name_3(*self)
        } else if g == 4 {
            keyword_name_4(*self)
        } else if g == 5 {
            keyword_name_5(*self)
        } else if g == 6 {
            keyword_name_6(*self)
        } else if g == 7 {
            keyword_name_7(*self)
        } else if g == 8 {
            keyword_name_8(*self)
        } else if g == 9 {
            keyword_name_9(*self)
        } else if g == 10 {
            keyword_name_10(*self)
        } else if g == 11 {
            keyword_name_11(*self)
        } else {
            keyword_name_12(*self)
        }
    }

    /// Whether the keyword belongs to the ANSI SQL:2016 keyword set.
    pub fn is_ansi(&self) -> (b: bool)
        ensures
            b == !is_extension_keyword(*self),
    {
        !(*self == Keyword::DATABASE || *self == Keyword::DATETIME || *self == Keyword::ILIKE || *self == Keyword::LIMIT || *self == Keyword::REPLACE || *self == Keyword::XOR
            || *self == Keyword::IF || *self == Keyword::INDEX)
    }
}

} // verus!
