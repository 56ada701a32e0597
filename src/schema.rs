use vstd::prelude::*;

verus! {

/// The database kinds whose table layout the library knows.
#[derive(Clone, Copy, PartialEq, Eq, Debug, Structural)]
pub enum Driver {
    MySql,
    Postgres,
    Sqlite,
    Mssql,
}

/// The driver that an identifier names, if any.
pub open spec fn driver_named(name: Seq<char>) -> Option<Driver> {
    if name == "mysql"@ {
        Some(Driver::MySql)
    } else if name == "postgres"@ {
        Some(Driver::Postgres)
    } else if name == "sqlite"@ {
        Some(Driver::Sqlite)
    } else if name == "mssql"@ {
        Some(Driver::Mssql)
    } else {
        None
    }
}

pub open spec fn schema_sql(d: Driver) -> Seq<char> {
    match d {
        Driver::MySql => "CREATE TABLE IF NOT EXISTS casbin_rule (id INT NOT NULL AUTO_INCREMENT, ptype VARCHAR(12) NOT NULL, v0 VARCHAR(128), v1 VARCHAR(128), v2 VARCHAR(128), v3 VARCHAR(128), v4 VARCHAR(128), v5 VARCHAR(128), PRIMARY KEY (id), CONSTRAINT unique_key_casbin_rule UNIQUE (ptype, v0, v1, v2, v3, v4, v5)) ENGINE=InnoDB DEFAULT CHARSET=utf8"@,
        Driver::Postgres => "CREATE TABLE IF NOT EXISTS casbin_rule (id SERIAL PRIMARY KEY, ptype VARCHAR NOT NULL, v0 VARCHAR, v1 VARCHAR, v2 VARCHAR, v3 VARCHAR, v4 VARCHAR, v5 VARCHAR, CONSTRAINT unique_key_casbin_rule UNIQUE (ptype, v0, v1, v2, v3, v4, v5))"@,
        Driver::Sqlite => "CREATE TABLE IF NOT EXISTS casbin_rule (id INTEGER PRIMARY KEY AUTOINCREMENT, ptype VARCHAR(12) NOT NULL, v0 VARCHAR(128), v1 VARCHAR(128), v2 VARCHAR(128), v3 VARCHAR(128), v4 VARCHAR(128), v5 VARCHAR(128), CONSTRAINT unique_key_casbin_rule UNIQUE (ptype, v0, v1, v2, v3, v4, v5))"@,
        Driver::Mssql => "IF NOT EXISTS (SELECT * FROM sysobjects WHERE name = 'casbin_rule' AND xtype = 'U') CREATE TABLE casbin_rule (id INT IDENTITY(1,1) PRIMARY KEY, ptype VARCHAR(12) NOT NULL, v0 VARCHAR(128), v1 VARCHAR(128), v2 VARCHAR(128), v3 VARCHAR(128), v4 VARCHAR(128), v5 VARCHAR(128), CONSTRAINT unique_key_casbin_rule UNIQUE (ptype, v0, v1, v2, v3, v4, v5))"@,
    }
}

impl Driver {
    /// The driver named `name`, as a database client reports its kind.
    pub fn from_name(name: &str) -> (r: Option<Driver>)
        ensures
            r == driver_named(name@),
    {
        let n = name.to_owned();
        if n == "mysql".to_owned() {
            Some(Driver::MySql)
        } else if n == "postgres".to_owned() {
            Some(Driver::Postgres)
        } else if n == "sqlite".to_owned() {
            Some(Driver::Sqlite)
        } else if n == "mssql".to_owned() {
            Some(Driver::Mssql)
        } else {
            None
        }
    }

    /// The statement that creates the rule table when it does not exist.
    pub fn schema(&self) -> (r: &'static str)
        ensures
            r@ == schema_sql(*self),
    {
        match self {
            Driver::MySql => "CREATE TABLE IF NOT EXISTS casbin_rule (id INT NOT NULL AUTO_INCREMENT, ptype VARCHAR(12) NOT NULL, v0 VARCHAR(128), v1 VARCHAR(128), v2 VARCHAR(128), v3 VARCHAR(128), v4 VARCHAR(128), v5 VARCHAR(128), PRIMARY KEY (id), CONSTRAINT unique_key_casbin_rule UNIQUE (ptype, v0, v1, v2, v3, v4, v5)) ENGINE=InnoDB DEFAULT CHARSET=utf8",
            Driver::Postgres => "CREATE TABLE IF NOT EXISTS casbin_rule (id SERIAL PRIMARY KEY, ptype VARCHAR NOT NULL, v0 VARCHAR, v1 VARCHAR, v2 VARCHAR, v3 VARCHAR, v4 VARCHAR, v5 VARCHAR, CONSTRAINT unique_key_casbin_rule UNIQUE (ptype, v0, v1, v2, v3, v4, v5))",
            Driver::Sqlite => "CREATE TABLE IF NOT EXISTS casbin_rule (id INTEGER PRIMARY KEY AUTOINCREMENT, ptype VARCHAR(12) NOT NULL, v0 VARCHAR(128), v1 VARCHAR(128), v2 VARCHAR(128), v3 VARCHAR(128), v4 VARCHAR(128), v5 VARCHAR(128), CONSTRAINT unique_key_casbin_rule UNIQUE (ptype, v0, v1, v2, v3, v4, v5))",
            Driver::Mssql => "IF NOT EXISTS (SELECT * FROM sysobjects WHERE name = 'casbin_rule' AND xtype = 'U') CREATE TABLE casbin_rule (id INT IDENTITY(1,1) PRIMARY KEY, ptype VARCHAR(12) NOT NULL, v0 VARCHAR(128), v1 VARCHAR(128), v2 VARCHAR(128), v3 VARCHAR(128), v4 VARCHAR(128), v5 VARCHAR(128), CONSTRAINT unique_key_casbin_rule UNIQUE (ptype, v0, v1, v2, v3, v4, v5))",
        }
    }
}

} // verus!
