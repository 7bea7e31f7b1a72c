//! Tipos de domínio e a máquina de estados do turno.
//!
//! Cada enum que vai para o banco ou para a interface tem um texto estável
//! (`como_texto`) e a volta (`do_texto`). A ida e a volta estão amarradas por
//! uma lei: ler o texto de um valor devolve o mesmo valor.

use crate::texto::{anexar, chars_de, iguais, string_de};
use vstd::prelude::*;

verus! {

broadcast use vstd::string::group_string_axioms;

/// Instante em epoch de milissegundos, UTC.
pub type Instante = i64;

/// O relógio do sistema, em milissegundos desde 1970. Chama
/// `SystemTime::now` e `duration_since(UNIX_EPOCH)`; um relógio anterior a
/// 1970 dá zero. Nada se promete do valor: ele depende da hora.
#[verifier::external_body]
pub fn agora() -> Instante {
    std::time::SystemTime::now()
        .duration_since(std::time::UNIX_EPOCH)
        .map(|d| d.as_millis() as i64)
        .unwrap_or(0)
}

/// Um id aleatório no formato de UUID v4 com hífens, em minúsculas.
pub open spec fn e_id_valido(s: Seq<char>) -> bool {
    &&& s.len() == 36
    &&& forall|i: int|
        0 <= i < s.len() ==> {
            let c = #[trigger] s[i];
            c == '-' || ('0' <= c && c <= '9') || ('a' <= c && c <= 'f')
        }
}

/// Chama `uuid::Uuid::new_v4().to_string()`. O valor é sorteado; o que vale
/// para todo sorteio é o formato: 36 caracteres, hexadecimal minúsculo e
/// hífen.
#[verifier::external_body]
pub fn novo_id() -> (r: String)
    ensures
        e_id_valido(r@),
{
    uuid::Uuid::new_v4().to_string()
}

// ------------------------------------------------------------------ nó

#[derive(Debug, Clone, Copy, PartialEq, Eq, Structural)]
pub enum TipoNo {
    Agente,
    Nota,
    Arquivos,
    Portal,
    Forma,
}

impl TipoNo {
    pub open spec fn rotulo(self) -> Seq<char> {
        match self {
            TipoNo::Agente => "agente"@,
            TipoNo::Nota => "nota"@,
            TipoNo::Arquivos => "arquivos"@,
            TipoNo::Portal => "portal"@,
            TipoNo::Forma => "forma"@,
        }
    }

    pub open spec fn de_rotulo(s: Seq<char>) -> Option<TipoNo> {
        if s == "agente"@ {
            Some(TipoNo::Agente)
        } else if s == "nota"@ {
            Some(TipoNo::Nota)
        } else if s == "arquivos"@ {
            Some(TipoNo::Arquivos)
        } else if s == "portal"@ {
            Some(TipoNo::Portal)
        } else if s == "forma"@ {
            Some(TipoNo::Forma)
        } else {
            None
        }
    }

    pub fn como_texto(&self) -> (r: &'static str)
        ensures
            r@ == self.rotulo(),
    {
        match self {
            TipoNo::Agente => "agente",
            TipoNo::Nota => "nota",
            TipoNo::Arquivos => "arquivos",
            TipoNo::Portal => "portal",
            TipoNo::Forma => "forma",
        }
    }

    pub fn do_texto(s: &str) -> (r: Option<TipoNo>)
        ensures
            r == TipoNo::de_rotulo(s@),
    {
        if iguais(s, "agente") {
            Some(TipoNo::Agente)
        } else if iguais(s, "nota") {
            Some(TipoNo::Nota)
        } else if iguais(s, "arquivos") {
            Some(TipoNo::Arquivos)
        } else if iguais(s, "portal") {
            Some(TipoNo::Portal)
        } else if iguais(s, "forma") {
            Some(TipoNo::Forma)
        } else {
            None
        }
    }
}

/// Ler o texto de um tipo de nó devolve o mesmo tipo.
pub proof fn lei_texto_tipo_no(t: TipoNo)
    ensures
        TipoNo::de_rotulo(t.rotulo()) == Some(t),
{
    reveal_strlit("agente");
    reveal_strlit("nota");
    reveal_strlit("arquivos");
    reveal_strlit("portal");
    reveal_strlit("forma");
    match t {
        TipoNo::Agente => {
        },
        TipoNo::Nota => {
            assert("nota"@.len() != "agente"@.len());
        },
        TipoNo::Arquivos => {
            assert("arquivos"@.len() != "agente"@.len());
            assert("arquivos"@.len() != "nota"@.len());
        },
        TipoNo::Portal => {
            assert("portal"@[0] != "agente"@[0]);
            assert("portal"@.len() != "nota"@.len());
            assert("portal"@.len() != "arquivos"@.len());
        },
        TipoNo::Forma => {
            assert("forma"@.len() != "agente"@.len());
            assert("forma"@.len() != "nota"@.len());
            assert("forma"@.len() != "arquivos"@.len());
            assert("forma"@.len() != "portal"@.len());
        },
    }
}

// ---------------------------------------------------------------- cabo

#[derive(Debug, Clone, Copy, PartialEq, Eq, Structural)]
pub enum TipoCabo {
    FalaCom,
    LeNota,
    EscreveNota,
}

impl TipoCabo {
    pub open spec fn rotulo(self) -> Seq<char> {
        match self {
            TipoCabo::FalaCom => "fala_com"@,
            TipoCabo::LeNota => "le_nota"@,
            TipoCabo::EscreveNota => "escreve_nota"@,
        }
    }

    pub open spec fn de_rotulo(s: Seq<char>) -> Option<TipoCabo> {
        if s == "fala_com"@ {
            Some(TipoCabo::FalaCom)
        } else if s == "le_nota"@ {
            Some(TipoCabo::LeNota)
        } else if s == "escreve_nota"@ {
            Some(TipoCabo::EscreveNota)
        } else {
            None
        }
    }

    pub fn como_texto(&self) -> (r: &'static str)
        ensures
            r@ == self.rotulo(),
    {
        match self {
            TipoCabo::FalaCom => "fala_com",
            TipoCabo::LeNota => "le_nota",
            TipoCabo::EscreveNota => "escreve_nota",
        }
    }

    pub fn do_texto(s: &str) -> (r: Option<TipoCabo>)
        ensures
            r == TipoCabo::de_rotulo(s@),
    {
        if iguais(s, "fala_com") {
            Some(TipoCabo::FalaCom)
        } else if iguais(s, "le_nota") {
            Some(TipoCabo::LeNota)
        } else if iguais(s, "escreve_nota") {
            Some(TipoCabo::EscreveNota)
        } else {
            None
        }
    }
}

/// Ler o texto de um tipo de cabo devolve o mesmo tipo.
pub proof fn lei_texto_tipo_cabo(t: TipoCabo)
    ensures
        TipoCabo::de_rotulo(t.rotulo()) == Some(t),
{
    reveal_strlit("fala_com");
    reveal_strlit("le_nota");
    reveal_strlit("escreve_nota");
    match t {
        TipoCabo::FalaCom => {
        },
        TipoCabo::LeNota => {
            assert("le_nota"@.len() != "fala_com"@.len());
        },
        TipoCabo::EscreveNota => {
            assert("escreve_nota"@.len() != "fala_com"@.len());
            assert("escreve_nota"@.len() != "le_nota"@.len());
        },
    }
}

#[derive(Debug, Clone, PartialEq)]
pub struct Cabo {
    pub id: String,
    pub workspace_id: String,
    pub de_node: String,
    pub para_node: String,
    pub tipo: TipoCabo,
    pub criado_em: Instante,
}

// -------------------------------------------------------------- sessão

#[derive(Debug, Clone, Copy, PartialEq, Eq, Structural)]
pub enum EstadoSessao {
    Ocioso,
    Pensando,
    AguardandoAprovacao,
    AguardandoHumano,
    AguardandoNo,
    Erro,
}

/// A tabela de transições legítimas do turno. Permanecer é sempre válido.
pub open spec fn transicao_legitima(de: EstadoSessao, para: EstadoSessao) -> bool {
    ||| de == para
    ||| (de == EstadoSessao::Ocioso && para == EstadoSessao::Pensando)
    ||| (de == EstadoSessao::Pensando && (para == EstadoSessao::Ocioso || para == EstadoSessao::AguardandoAprovacao || para
        == EstadoSessao::AguardandoHumano || para == EstadoSessao::AguardandoNo || para == EstadoSessao::Erro))
    ||| (de == EstadoSessao::AguardandoAprovacao && (para == EstadoSessao::Pensando || para == EstadoSessao::Ocioso))
    ||| (de == EstadoSessao::AguardandoHumano && para == EstadoSessao::Pensando)
    ||| (de == EstadoSessao::AguardandoNo && (para == EstadoSessao::Pensando || para == EstadoSessao::Erro))
    ||| (de == EstadoSessao::Erro && para == EstadoSessao::Ocioso)
}

impl EstadoSessao {
    pub open spec fn rotulo(self) -> Seq<char> {
        match self {
            EstadoSessao::Ocioso => "ocioso"@,
            EstadoSessao::Pensando => "pensando"@,
            EstadoSessao::AguardandoAprovacao => "aguardando_aprovacao"@,
            EstadoSessao::AguardandoHumano => "aguardando_humano"@,
            EstadoSessao::AguardandoNo => "aguardando_no"@,
            EstadoSessao::Erro => "erro"@,
        }
    }

    pub open spec fn de_rotulo(s: Seq<char>) -> Option<EstadoSessao> {
        if s == "ocioso"@ {
            Some(EstadoSessao::Ocioso)
        } else if s == "pensando"@ {
            Some(EstadoSessao::Pensando)
        } else if s == "aguardando_aprovacao"@ {
            Some(EstadoSessao::AguardandoAprovacao)
        } else if s == "aguardando_humano"@ {
            Some(EstadoSessao::AguardandoHumano)
        } else if s == "aguardando_no"@ {
            Some(EstadoSessao::AguardandoNo)
        } else if s == "erro"@ {
            Some(EstadoSessao::Erro)
        } else {
            None
        }
    }

    /// Pede atenção: aprovação, pergunta ao humano ou erro.
    pub open spec fn spec_pede_atencao(self) -> bool {
        self == EstadoSessao::AguardandoAprovacao || self == EstadoSessao::AguardandoHumano
            || self == EstadoSessao::Erro
    }

    /// Aceita turno novo: só quem está parado.
    pub open spec fn spec_aceita_turno(self) -> bool {
        self == EstadoSessao::Ocioso || self == EstadoSessao::Erro
    }

    pub fn como_texto(&self) -> (r: &'static str)
        ensures
            r@ == self.rotulo(),
    {
        match self {
            EstadoSessao::Ocioso => "ocioso",
            EstadoSessao::Pensando => "pensando",
            EstadoSessao::AguardandoAprovacao => "aguardando_aprovacao",
            EstadoSessao::AguardandoHumano => "aguardando_humano",
            EstadoSessao::AguardandoNo => "aguardando_no",
            EstadoSessao::Erro => "erro",
        }
    }

    pub fn do_texto(s: &str) -> (r: Option<EstadoSessao>)
        ensures
            r == EstadoSessao::de_rotulo(s@),
    {
        if iguais(s, "ocioso") {
            Some(EstadoSessao::Ocioso)
        } else if iguais(s, "pensando") {
            Some(EstadoSessao::Pensando)
        } else if iguais(s, "aguardando_aprovacao") {
            Some(EstadoSessao::AguardandoAprovacao)
        } else if iguais(s, "aguardando_humano") {
            Some(EstadoSessao::AguardandoHumano)
        } else if iguais(s, "aguardando_no") {
            Some(EstadoSessao::AguardandoNo)
        } else if iguais(s, "erro") {
            Some(EstadoSessao::Erro)
        } else {
            None
        }
    }

    /// O ponto vermelho do nó: o usuário precisa agir.
    pub fn pede_atencao(&self) -> (r: bool)
        ensures
            r == self.spec_pede_atencao(),
    {
        match self {
            EstadoSessao::AguardandoAprovacao | EstadoSessao::AguardandoHumano
            | EstadoSessao::Erro => true,
            _ => false,
        }
    }

    /// Transições legítimas. Qualquer outra é bug do orquestrador.
    pub fn pode_ir_para(&self, destino: EstadoSessao) -> (r: bool)
        ensures
            r == transicao_legitima(*self, destino),
    {
        match (*self, destino) {
            (EstadoSessao::Ocioso, EstadoSessao::Pensando) => true,
            (EstadoSessao::Pensando, EstadoSessao::Ocioso) => true,
            (EstadoSessao::Pensando, EstadoSessao::AguardandoAprovacao) => true,
            (EstadoSessao::Pensando, EstadoSessao::AguardandoHumano) => true,
            (EstadoSessao::Pensando, EstadoSessao::AguardandoNo) => true,
            (EstadoSessao::Pensando, EstadoSessao::Erro) => true,
            (EstadoSessao::AguardandoAprovacao, EstadoSessao::Pensando) => true,
            (EstadoSessao::AguardandoAprovacao, EstadoSessao::Ocioso) => true,
            (EstadoSessao::AguardandoHumano, EstadoSessao::Pensando) => true,
            (EstadoSessao::AguardandoNo, EstadoSessao::Pensando) => true,
            (EstadoSessao::AguardandoNo, EstadoSessao::Erro) => true,
            (EstadoSessao::Erro, EstadoSessao::Ocioso) => true,
            (a, b) => a == b,
        }
    }

    /// O nó aceita um turno novo? Só quem está parado aceita.
    pub fn aceita_turno(&self) -> (r: bool)
        ensures
            r == self.spec_aceita_turno(),
    {
        match self {
            EstadoSessao::Ocioso | EstadoSessao::Erro => true,
            _ => false,
        }
    }
}

/// Ler o texto de um estado devolve o mesmo estado.
pub proof fn lei_texto_estado_sessao(e: EstadoSessao)
    ensures
        EstadoSessao::de_rotulo(e.rotulo()) == Some(e),
{
    reveal_strlit("ocioso");
    reveal_strlit("pensando");
    reveal_strlit("aguardando_aprovacao");
    reveal_strlit("aguardando_humano");
    reveal_strlit("aguardando_no");
    reveal_strlit("erro");
    match e {
        EstadoSessao::Ocioso => {
        },
        EstadoSessao::Pensando => {
            assert("pensando"@.len() != "ocioso"@.len());
        },
        EstadoSessao::AguardandoAprovacao => {
            assert("aguardando_aprovacao"@.len() != "ocioso"@.len());
            assert("aguardando_aprovacao"@.len() != "pensando"@.len());
        },
        EstadoSessao::AguardandoHumano => {
            assert("aguardando_humano"@.len() != "ocioso"@.len());
            assert("aguardando_humano"@.len() != "pensando"@.len());
            assert("aguardando_humano"@.len() != "aguardando_aprovacao"@.len());
        },
        EstadoSessao::AguardandoNo => {
            assert("aguardando_no"@.len() != "ocioso"@.len());
            assert("aguardando_no"@.len() != "pensando"@.len());
            assert("aguardando_no"@.len() != "aguardando_aprovacao"@.len());
            assert("aguardando_no"@.len() != "aguardando_humano"@.len());
        },
        EstadoSessao::Erro => {
            assert("erro"@.len() != "ocioso"@.len());
            assert("erro"@.len() != "pensando"@.len());
            assert("erro"@.len() != "aguardando_aprovacao"@.len());
            assert("erro"@.len() != "aguardando_humano"@.len());
            assert("erro"@.len() != "aguardando_no"@.len());
        },
    }
}

/// Todo estado parado chega a pensar: ocioso vai direto, erro passa por
/// ocioso. É o que garante que um nó que aceita turno consegue começar um.
pub proof fn lei_quem_aceita_turno_chega_a_pensar(e: EstadoSessao)
    requires
        e.spec_aceita_turno(),
    ensures
        transicao_legitima(e, EstadoSessao::Pensando) || (transicao_legitima(
            e,
            EstadoSessao::Ocioso,
        ) && transicao_legitima(EstadoSessao::Ocioso, EstadoSessao::Pensando)),
{
}

/// Quem pede atenção não aceita turno novo, com uma exceção: o erro, que se
/// reconhece mandando outra mensagem.
pub proof fn lei_atencao_e_turno(e: EstadoSessao)
    ensures
        e.spec_pede_atencao() && e.spec_aceita_turno() <==> e == EstadoSessao::Erro,
{
}

#[derive(Debug, Clone, Copy, PartialEq, Eq, Structural)]
pub enum Adaptador {
    Claude,
    Codex,
    Pty,
    /// Roteiro em vez de modelo.
    Falso,
}

impl Adaptador {
    pub open spec fn rotulo(self) -> Seq<char> {
        match self {
            Adaptador::Claude => "cli"@,
            Adaptador::Codex => "codex"@,
            Adaptador::Pty => "pty"@,
            Adaptador::Falso => "falso"@,
        }
    }

    pub open spec fn de_rotulo(s: Seq<char>) -> Option<Adaptador> {
        if s == "cli"@ {
            Some(Adaptador::Claude)
        } else if s == "codex"@ {
            Some(Adaptador::Codex)
        } else if s == "pty"@ {
            Some(Adaptador::Pty)
        } else if s == "falso"@ {
            Some(Adaptador::Falso)
        } else {
            None
        }
    }

    pub fn como_texto(&self) -> (r: &'static str)
        ensures
            r@ == self.rotulo(),
    {
        match self {
            Adaptador::Claude => "cli",
            Adaptador::Codex => "codex",
            Adaptador::Pty => "pty",
            Adaptador::Falso => "falso",
        }
    }

    pub fn do_texto(s: &str) -> (r: Option<Adaptador>)
        ensures
            r == Adaptador::de_rotulo(s@),
    {
        if iguais(s, "cli") {
            Some(Adaptador::Claude)
        } else if iguais(s, "codex") {
            Some(Adaptador::Codex)
        } else if iguais(s, "pty") {
            Some(Adaptador::Pty)
        } else if iguais(s, "falso") {
            Some(Adaptador::Falso)
        } else {
            None
        }
    }
}

/// Ler o texto de um adaptador devolve o mesmo adaptador.
pub proof fn lei_texto_adaptador(a: Adaptador)
    ensures
        Adaptador::de_rotulo(a.rotulo()) == Some(a),
{
    reveal_strlit("cli");
    reveal_strlit("codex");
    reveal_strlit("pty");
    reveal_strlit("falso");
    match a {
        Adaptador::Claude => {
        },
        Adaptador::Codex => {
            assert("codex"@.len() != "cli"@.len());
        },
        Adaptador::Pty => {
            assert("pty"@[0] != "cli"@[0]);
            assert("pty"@.len() != "codex"@.len());
        },
        Adaptador::Falso => {
            assert("falso"@.len() != "cli"@.len());
            assert("falso"@[0] != "codex"@[0]);
            assert("falso"@.len() != "pty"@.len());
        },
    }
}

#[derive(Debug, Clone, Copy, PartialEq, Eq, Structural)]
pub enum PapelMensagem {
    Usuario,
    Agente,
    Sistema,
    /// Veio de outro nó pelo cabo.
    No,
}

impl PapelMensagem {
    pub open spec fn rotulo(self) -> Seq<char> {
        match self {
            PapelMensagem::Usuario => "usuario"@,
            PapelMensagem::Agente => "agente"@,
            PapelMensagem::Sistema => "sistema"@,
            PapelMensagem::No => "no"@,
        }
    }

    pub open spec fn de_rotulo(s: Seq<char>) -> Option<PapelMensagem> {
        if s == "usuario"@ {
            Some(PapelMensagem::Usuario)
        } else if s == "agente"@ {
            Some(PapelMensagem::Agente)
        } else if s == "sistema"@ {
            Some(PapelMensagem::Sistema)
        } else if s == "no"@ {
            Some(PapelMensagem::No)
        } else {
            None
        }
    }

    pub fn como_texto(&self) -> (r: &'static str)
        ensures
            r@ == self.rotulo(),
    {
        match self {
            PapelMensagem::Usuario => "usuario",
            PapelMensagem::Agente => "agente",
            PapelMensagem::Sistema => "sistema",
            PapelMensagem::No => "no",
        }
    }

    pub fn do_texto(s: &str) -> (r: Option<PapelMensagem>)
        ensures
            r == PapelMensagem::de_rotulo(s@),
    {
        if iguais(s, "usuario") {
            Some(PapelMensagem::Usuario)
        } else if iguais(s, "agente") {
            Some(PapelMensagem::Agente)
        } else if iguais(s, "sistema") {
            Some(PapelMensagem::Sistema)
        } else if iguais(s, "no") {
            Some(PapelMensagem::No)
        } else {
            None
        }
    }
}

/// Ler o texto de um papel de mensagem devolve o mesmo papel.
pub proof fn lei_texto_papel_mensagem(p: PapelMensagem)
    ensures
        PapelMensagem::de_rotulo(p.rotulo()) == Some(p),
{
    reveal_strlit("usuario");
    reveal_strlit("agente");
    reveal_strlit("sistema");
    reveal_strlit("no");
    match p {
        PapelMensagem::Usuario => {
        },
        PapelMensagem::Agente => {
            assert("agente"@.len() != "usuario"@.len());
        },
        PapelMensagem::Sistema => {
            assert("sistema"@[0] != "usuario"@[0]);
            assert("sistema"@.len() != "agente"@.len());
        },
        PapelMensagem::No => {
            assert("no"@.len() != "usuario"@.len());
            assert("no"@.len() != "agente"@.len());
            assert("no"@.len() != "sistema"@.len());
        },
    }
}

#[derive(Debug, Clone, Copy, PartialEq, Eq, Structural)]
pub enum Aprovacao {
    Automatica,
    Pendente,
    Aprovada,
    Negada,
}

impl Aprovacao {
    pub open spec fn rotulo(self) -> Seq<char> {
        match self {
            Aprovacao::Automatica => "automatica"@,
            Aprovacao::Pendente => "pendente"@,
            Aprovacao::Aprovada => "aprovada"@,
            Aprovacao::Negada => "negada"@,
        }
    }

    pub open spec fn de_rotulo(s: Seq<char>) -> Option<Aprovacao> {
        if s == "automatica"@ {
            Some(Aprovacao::Automatica)
        } else if s == "pendente"@ {
            Some(Aprovacao::Pendente)
        } else if s == "aprovada"@ {
            Some(Aprovacao::Aprovada)
        } else if s == "negada"@ {
            Some(Aprovacao::Negada)
        } else {
            None
        }
    }

    pub fn como_texto(&self) -> (r: &'static str)
        ensures
            r@ == self.rotulo(),
    {
        match self {
            Aprovacao::Automatica => "automatica",
            Aprovacao::Pendente => "pendente",
            Aprovacao::Aprovada => "aprovada",
            Aprovacao::Negada => "negada",
        }
    }

    pub fn do_texto(s: &str) -> (r: Option<Aprovacao>)
        ensures
            r == Aprovacao::de_rotulo(s@),
    {
        if iguais(s, "automatica") {
            Some(Aprovacao::Automatica)
        } else if iguais(s, "pendente") {
            Some(Aprovacao::Pendente)
        } else if iguais(s, "aprovada") {
            Some(Aprovacao::Aprovada)
        } else if iguais(s, "negada") {
            Some(Aprovacao::Negada)
        } else {
            None
        }
    }
}

/// Ler o texto de uma aprovação devolve a mesma aprovação.
pub proof fn lei_texto_aprovacao(a: Aprovacao)
    ensures
        Aprovacao::de_rotulo(a.rotulo()) == Some(a),
{
    reveal_strlit("automatica");
    reveal_strlit("pendente");
    reveal_strlit("aprovada");
    reveal_strlit("negada");
    match a {
        Aprovacao::Automatica => {
        },
        Aprovacao::Pendente => {
            assert("pendente"@.len() != "automatica"@.len());
        },
        Aprovacao::Aprovada => {
            assert("aprovada"@.len() != "automatica"@.len());
            assert("aprovada"@[0] != "pendente"@[0]);
        },
        Aprovacao::Negada => {
            assert("negada"@.len() != "automatica"@.len());
            assert("negada"@.len() != "pendente"@.len());
            assert("negada"@.len() != "aprovada"@.len());
        },
    }
}

// ------------------------------------------------------------- a ponte

/// Teto de saltos de uma cadeia.
pub const MAX_SALTOS: u32 = 6;

/// Prazo padrão de uma mensagem que espera resposta, e o teto que o agente
/// pode pedir.
pub const PRAZO_MENSAGEM_PADRAO_MS: u64 = 600_000;
pub const PRAZO_MENSAGEM_TETO_MS: u64 = 1_800_000;

/// Uma cadeia de conversa entre nós.
#[derive(Debug, Clone, PartialEq, Eq)]
pub struct Trace {
    pub id: String,
    /// Quantas vezes esta cadeia já mudou de nó.
    pub saltos: u32,
}

impl Trace {
    /// Começa uma cadeia: `tr_` e os oito primeiros caracteres de um id novo.
    pub fn novo() -> (r: Trace)
        ensures
            r.saltos == 0,
            r.id@.len() == 11,
            r.id@.take(3) == "tr_"@,
    {
        let id = novo_id();
        let cs = chars_de(id.as_str());
        let mut v: Vec<char> = Vec::new();
        anexar(&mut v, "tr_");
        proof {
            reveal_strlit("tr_");
        }
        let mut i: usize = 0;
        while i < 8
            invariant
                i <= 8,
                cs@.len() == 36,
                v@.len() == 3 + i,
                v@.take(3) == "tr_"@,
            decreases 8 - i,
        {
            let ghost antes = v@;
            v.push(cs[i]);
            proof {
                assert(v@.take(3) == antes.take(3));
            }
            i = i + 1;
        }
        Trace { id: string_de(&v), saltos: 0 }
    }

    /// A cadeia dando mais um passo. `None` quando já andou demais.
    pub fn saltar(&self) -> (r: Option<Trace>)
        ensures
            self.saltos < MAX_SALTOS ==> (r matches Some(t) && t.id == self.id && t.saltos
                == self.saltos + 1),
            self.saltos >= MAX_SALTOS ==> r is None,
    {
        if self.saltos >= MAX_SALTOS {
            return None;
        }
        Some(Trace { id: self.id.clone(), saltos: self.saltos + 1 })
    }
}

/// Quantos saltos uma cadeia tem depois de `k` passos de [`Trace::saltar`]
/// a partir de `s`, ou `None` se algum passo foi recusado.
pub open spec fn saltos_apos(s: nat, k: nat) -> Option<nat>
    decreases k,
{
    if k == 0 {
        Some(s)
    } else {
        match saltos_apos(s, (k - 1) as nat) {
            Some(x) => if x < MAX_SALTOS {
                Some(x + 1)
            } else {
                None
            },
            None => None,
        }
    }
}

/// Uma cadeia nova dá exatamente `MAX_SALTOS` passos: todos os que cabem no
/// teto passam, contando um a um, e o seguinte é recusado.
pub proof fn lei_saltos_de_uma_cadeia(k: nat)
    ensures
        saltos_apos(0, k) is Some <==> k <= MAX_SALTOS,
        k <= MAX_SALTOS ==> saltos_apos(0, k) == Some(k),
    decreases k,
{
    if k > 0 {
        lei_saltos_de_uma_cadeia((k - 1) as nat);
    }
}

/// O envelope que atravessa a ponte.
#[derive(Debug, Clone, PartialEq)]
pub struct Envelope {
    pub id: String,
    pub de: String,
    pub para: String,
    pub tipo: TipoMensagem,
    pub corpo: String,
    pub refs: Vec<String>,
    pub trace: String,
    pub saltos: u32,
    pub prazo_ms: u64,
}

#[derive(Debug, Clone, Copy, PartialEq, Eq, Structural)]
pub enum TipoMensagem {
    /// Espera resposta.
    Pedido,
    /// Entrega e segue em frente.
    Aviso,
}

#[derive(Debug, Clone, Copy, PartialEq, Eq, Structural)]
pub enum Decisao {
    Aprovada,
    Negada,
}

// -------------------------------------------------------------- papéis

/// Quanto o papel pode fazer sozinho. Escolhe o conjunto de ferramentas,
/// nunca se o card aparece.
#[derive(Debug, Clone, Copy, PartialEq, Eq, Structural)]
pub enum Autonomia {
    Cauteloso,
    Padrao,
    Solto,
}

impl Autonomia {
    pub open spec fn rotulo(self) -> Seq<char> {
        match self {
            Autonomia::Cauteloso => "cauteloso"@,
            Autonomia::Padrao => "padrao"@,
            Autonomia::Solto => "solto"@,
        }
    }

    pub open spec fn de_rotulo(s: Seq<char>) -> Option<Autonomia> {
        if s == "cauteloso"@ {
            Some(Autonomia::Cauteloso)
        } else if s == "padrao"@ {
            Some(Autonomia::Padrao)
        } else if s == "solto"@ {
            Some(Autonomia::Solto)
        } else {
            None
        }
    }

    pub fn como_texto(&self) -> (r: &'static str)
        ensures
            r@ == self.rotulo(),
    {
        match self {
            Autonomia::Cauteloso => "cauteloso",
            Autonomia::Padrao => "padrao",
            Autonomia::Solto => "solto",
        }
    }

    pub fn do_texto(s: &str) -> (r: Option<Autonomia>)
        ensures
            r == Autonomia::de_rotulo(s@),
    {
        if iguais(s, "cauteloso") {
            Some(Autonomia::Cauteloso)
        } else if iguais(s, "padrao") {
            Some(Autonomia::Padrao)
        } else if iguais(s, "solto") {
            Some(Autonomia::Solto)
        } else {
            None
        }
    }
}

/// Ler o texto de uma autonomia devolve a mesma autonomia.
pub proof fn lei_texto_autonomia(a: Autonomia)
    ensures
        Autonomia::de_rotulo(a.rotulo()) == Some(a),
{
    reveal_strlit("cauteloso");
    reveal_strlit("padrao");
    reveal_strlit("solto");
    match a {
        Autonomia::Cauteloso => {
        },
        Autonomia::Padrao => {
            assert("padrao"@.len() != "cauteloso"@.len());
        },
        Autonomia::Solto => {
            assert("solto"@.len() != "cauteloso"@.len());
            assert("solto"@.len() != "padrao"@.len());
        },
    }
}

/// Um servidor MCP de fora, ligado a um papel.
#[derive(Debug, Clone, PartialEq)]
pub struct ServidorMcp {
    pub nome: String,
    pub url: String,
    /// Cabeçalhos, tipicamente a autenticação. Nunca atravessam a fronteira IPC.
    pub cabecalhos: Vec<(String, String)>,
}

/// Papel = prompt de sistema + ferramentas + autonomia (+ modelo).
#[derive(Debug, Clone, PartialEq)]
pub struct Papel {
    pub id: String,
    pub nome: String,
    pub prompt: String,
    /// Ferramentas do barramento que este papel enxerga, sem prefixo.
    /// Vazio = o que a autonomia der.
    pub ferramentas: Vec<String>,
    pub autonomia: Autonomia,
    pub modelo: Option<String>,
    pub embutido: bool,
    pub criado_em: Instante,
    pub mcp: Vec<ServidorMcp>,
}

/// `depois` é `antes` sem os segredos: os mesmos campos, os mesmos
/// servidores na mesma ordem, com nome e url, e nenhum cabeçalho.
pub open spec fn sem_segredos_de(antes: Papel, depois: Papel) -> bool {
    &&& depois.id == antes.id
    &&& depois.nome == antes.nome
    &&& depois.prompt == antes.prompt
    &&& depois.ferramentas == antes.ferramentas
    &&& depois.autonomia == antes.autonomia
    &&& depois.modelo == antes.modelo
    &&& depois.embutido == antes.embutido
    &&& depois.criado_em == antes.criado_em
    &&& depois.mcp@.len() == antes.mcp@.len()
    &&& forall|i: int|
        0 <= i < depois.mcp@.len() ==> (#[trigger] depois.mcp@[i]).nome == antes.mcp@[i].nome
            && depois.mcp@[i].url == antes.mcp@[i].url && depois.mcp@[i].cabecalhos@.len() == 0
}

/// Tirar os segredos de um papel já sem segredos não muda nada: duas
/// passadas dão o mesmo que uma.
pub proof fn lei_sem_segredos_duas_vezes(p: Papel, uma: Papel, duas: Papel)
    requires
        sem_segredos_de(p, uma),
        sem_segredos_de(uma, duas),
    ensures
        sem_segredos_de(p, duas),
{
}

impl Papel {
    /// Uma cópia sem os segredos, para atravessar a fronteira IPC: os mesmos
    /// servidores, na mesma ordem, com nome e url, e nenhum cabeçalho.
    pub fn sem_segredos(self) -> (r: Papel)
        ensures
            sem_segredos_de(self, r),
    {
        let mut limpos: Vec<ServidorMcp> = Vec::new();
        let mut i: usize = 0;
        while i < self.mcp.len()
            invariant
                i <= self.mcp@.len(),
                limpos@.len() == i,
                forall|k: int|
                    0 <= k < i ==> (#[trigger] limpos@[k]).nome == self.mcp@[k].nome
                        && limpos@[k].url == self.mcp@[k].url && limpos@[k].cabecalhos@.len()
                        == 0,
            decreases self.mcp@.len() - i,
        {
            let s = &self.mcp[i];
            limpos.push(
                ServidorMcp { nome: s.nome.clone(), url: s.url.clone(), cabecalhos: Vec::new() },
            );
            i = i + 1;
        }
        Papel {
            id: self.id,
            nome: self.nome,
            prompt: self.prompt,
            ferramentas: self.ferramentas,
            autonomia: self.autonomia,
            modelo: self.modelo,
            embutido: self.embutido,
            criado_em: self.criado_em,
            mcp: limpos,
        }
    }
}

/// Teto de nós que uma cadeia pode recrutar.
pub const MAX_RECRUTAS_POR_CADEIA: usize = 6;

/// Teto de nós de agente por workspace.
pub const MAX_AGENTES_POR_WORKSPACE: usize = 20;

/// Cabo dentro de uma partitura, pelos índices dos nós salvos.
#[derive(Debug, Clone, Copy, PartialEq, Eq, Structural)]
pub struct CaboSalvo {
    pub de: usize,
    pub para: usize,
    pub tipo: TipoCabo,
}

// ------------------------------------------------------------- ensaios

#[derive(Debug, Clone, Copy, PartialEq, Eq, Structural)]
pub enum EstadoEnsaio {
    Aberto,
    Publicado,
    Descartado,
}

impl EstadoEnsaio {
    pub open spec fn rotulo(self) -> Seq<char> {
        match self {
            EstadoEnsaio::Aberto => "aberto"@,
            EstadoEnsaio::Publicado => "publicado"@,
            EstadoEnsaio::Descartado => "descartado"@,
        }
    }

    pub open spec fn de_rotulo(s: Seq<char>) -> Option<EstadoEnsaio> {
        if s == "aberto"@ {
            Some(EstadoEnsaio::Aberto)
        } else if s == "publicado"@ {
            Some(EstadoEnsaio::Publicado)
        } else if s == "descartado"@ {
            Some(EstadoEnsaio::Descartado)
        } else {
            None
        }
    }

    pub fn como_texto(&self) -> (r: &'static str)
        ensures
            r@ == self.rotulo(),
    {
        match self {
            EstadoEnsaio::Aberto => "aberto",
            EstadoEnsaio::Publicado => "publicado",
            EstadoEnsaio::Descartado => "descartado",
        }
    }

    pub fn do_texto(s: &str) -> (r: Option<EstadoEnsaio>)
        ensures
            r == EstadoEnsaio::de_rotulo(s@),
    {
        if iguais(s, "aberto") {
            Some(EstadoEnsaio::Aberto)
        } else if iguais(s, "publicado") {
            Some(EstadoEnsaio::Publicado)
        } else if iguais(s, "descartado") {
            Some(EstadoEnsaio::Descartado)
        } else {
            None
        }
    }
}

/// Ler o texto de um estado de rascunho devolve o mesmo estado.
pub proof fn lei_texto_estado_ensaio(e: EstadoEnsaio)
    ensures
        EstadoEnsaio::de_rotulo(e.rotulo()) == Some(e),
{
    reveal_strlit("aberto");
    reveal_strlit("publicado");
    reveal_strlit("descartado");
    match e {
        EstadoEnsaio::Aberto => {
        },
        EstadoEnsaio::Publicado => {
            assert("publicado"@.len() != "aberto"@.len());
        },
        EstadoEnsaio::Descartado => {
            assert("descartado"@.len() != "aberto"@.len());
            assert("descartado"@.len() != "publicado"@.len());
        },
    }
}

/// Um rascunho: uma cópia isolada da pasta.
#[derive(Debug, Clone, PartialEq)]
pub struct Ensaio {
    pub id: String,
    pub workspace_id: String,
    pub nome: String,
    pub branch: String,
    pub caminho_worktree: String,
    pub base_commit: Option<String>,
    pub estado: EstadoEnsaio,
    pub criado_em: Instante,
    pub alterado_em: Instante,
}

/// O que a tela de publicar mostra antes do clique.
#[derive(Debug, Clone, PartialEq)]
pub struct PreviaPublicacao {
    pub ensaio_id: String,
    pub alteracoes: Vec<MudancaArquivo>,
    pub conflitos: Vec<String>,
}

#[derive(Debug, Clone, PartialEq)]
pub struct MudancaArquivo {
    pub caminho: String,
    pub como: TipoMudanca,
}

/// A letra do git virada palavra de gente.
#[derive(Debug, Clone, Copy, PartialEq, Eq, Structural)]
pub enum TipoMudanca {
    Criado,
    Alterado,
    Apagado,
    Renomeado,
}

/// A mudança que a primeira letra de `git diff --name-status` quer dizer.
/// Desconhecida vira `Alterado`.
pub open spec fn mudanca_da_letra(s: Seq<char>) -> TipoMudanca {
    if s.len() > 0 && s[0] == 'A' {
        TipoMudanca::Criado
    } else if s.len() > 0 && s[0] == 'D' {
        TipoMudanca::Apagado
    } else if s.len() > 0 && s[0] == 'R' {
        TipoMudanca::Renomeado
    } else {
        TipoMudanca::Alterado
    }
}

impl TipoMudanca {
    pub open spec fn rotulo(self) -> Seq<char> {
        match self {
            TipoMudanca::Criado => "criado"@,
            TipoMudanca::Alterado => "alterado"@,
            TipoMudanca::Apagado => "apagado"@,
            TipoMudanca::Renomeado => "renomeado"@,
        }
    }

    /// Traduz a letra de `git diff --name-status`.
    pub fn da_letra(letra: &str) -> (r: TipoMudanca)
        ensures
            r == mudanca_da_letra(letra@),
    {
        let cs = chars_de(letra);
        if cs.len() > 0 && cs[0] == 'A' {
            TipoMudanca::Criado
        } else if cs.len() > 0 && cs[0] == 'D' {
            TipoMudanca::Apagado
        } else if cs.len() > 0 && cs[0] == 'R' {
            TipoMudanca::Renomeado
        } else {
            TipoMudanca::Alterado
        }
    }

    pub fn como_texto(&self) -> (r: &'static str)
        ensures
            r@ == self.rotulo(),
    {
        match self {
            TipoMudanca::Criado => "criado",
            TipoMudanca::Alterado => "alterado",
            TipoMudanca::Apagado => "apagado",
            TipoMudanca::Renomeado => "renomeado",
        }
    }
}

/// De qual lado ficar num conflito.
#[derive(Debug, Clone, Copy, PartialEq, Eq, Structural)]
pub enum LadoDoConflito {
    Original,
    Rascunho,
}

/// Uma permissão concedida com "não perguntar de novo".
#[derive(Debug, Clone, PartialEq)]
pub struct RegraAprovacao {
    pub id: String,
    pub workspace_id: String,
    pub ferramenta: String,
    pub criado_em: Instante,
}

impl RegraAprovacao {
    /// O que gravar em `decidido_por` quando esta regra decide: `regra:<nome>`.
    pub fn assinatura(&self) -> (r: String)
        ensures
            r@ == "regra:"@ + self.ferramenta@,
    {
        let mut v: Vec<char> = Vec::new();
        anexar(&mut v, "regra:");
        anexar(&mut v, self.ferramenta.as_str());
        string_de(&v)
    }
}

/// O que a interface precisa para desenhar o card de aprovação.
#[derive(Debug, Clone, PartialEq)]
pub struct PedidoAprovacao {
    pub tool_call_id: String,
    pub session_id: String,
    pub node_id: String,
    pub ferramenta: String,
    /// Uma linha: "Gravar orçamento.xlsx".
    pub resumo: String,
    /// A segunda linha: "14 linhas · 2,3 kB", ou o comando que vai rodar.
    pub detalhe: String,
    /// Prévia do conteúdo, encolhida. `None` quando a ferramenta não escreve.
    pub previa: Option<String>,
    pub criado_em: Instante,
}

} // verus!
