//! O que um adaptador de agente precisa saber, e o roteiro do adaptador
//! falso.
//!
//! Um adaptador roda um agente e traduz a saída nativa dele para
//! [`EventoAgente`]. Rodar é da borda; o contexto, as URLs que o agente usa e
//! o roteiro de demonstração são daqui.

use crate::cli::{EventoAgente, Uso};
use crate::json::{conteudo_json, json_objeto, json_texto, par, ValorJson};
use crate::modelo::{novo_id, Papel};
use crate::texto::{
    anexar, anexar_chars, aparado, aparado_por, aparar_chars, chars_de, linhas, partir_linhas,
    primeiros, string_de, Corte,
};
use vstd::prelude::*;

verus! {

broadcast use vstd::string::group_string_axioms;

/// O que o adaptador precisa saber para rodar um agente.
#[derive(Debug, Clone)]
pub struct ContextoSessao {
    pub session_id: String,
    pub node_id: String,
    /// Pasta do workspace. O agente não enxerga nada fora dela.
    pub pasta: String,
    /// Id de retomada devolvido pelo agente numa sessão anterior. `Some`
    /// quer dizer "continue aquela conversa", não "comece outra".
    pub sessao_externa_id: Option<String>,
    /// Segredo que o barramento usa para descobrir qual nó está chamando. Vai
    /// para os arquivos de configuração do agente e para lugar nenhum mais.
    pub token: String,
    /// Onde o barramento atende. `None` enquanto ele não subiu: aí o agente
    /// roda somente leitura e sem ponte.
    pub url_barramento: Option<String>,
    /// O papel do nó, quando ele tem um.
    pub papel: Option<Papel>,
}

/// A URL base com um caminho no fim.
pub open spec fn com_caminho(base: Option<String>, caminho: Seq<char>) -> Option<Seq<char>> {
    match base {
        Some(u) => Some(u@ + caminho),
        None => None,
    }
}

fn juntar_url(base: &Option<String>, caminho: &str) -> (r: Option<String>)
    ensures
        match r {
            Some(x) => com_caminho(*base, caminho@) == Some(x@),
            None => com_caminho(*base, caminho@) is None,
        },
{
    match base {
        Some(u) => {
            let mut v = chars_de(u.as_str());
            anexar(&mut v, caminho);
            Some(string_de(&v))
        },
        None => None,
    }
}

impl ContextoSessao {
    /// Para onde o hook de aprovação manda cada pedido de ferramenta.
    pub fn url_de_aprovacao(&self) -> (r: Option<String>)
        ensures
            match r {
                Some(x) => com_caminho(self.url_barramento, "/aprovacao"@) == Some(x@),
                None => self.url_barramento is None,
            },
    {
        juntar_url(&self.url_barramento, "/aprovacao")
    }

    /// Onde o agente encontra as ferramentas do barramento.
    pub fn url_do_mcp(&self) -> (r: Option<String>)
        ensures
            match r {
                Some(x) => com_caminho(self.url_barramento, "/mcp"@) == Some(x@),
                None => self.url_barramento is None,
            },
    {
        juntar_url(&self.url_barramento, "/mcp")
    }
}

// ------------------------------------------------------------------ falso

/// Um turno inteiro, escrito à mão. Com roteiro, o mesmo turno roda mil
/// vezes igual e de graça.
#[derive(Debug, Clone)]
pub struct Roteiro {
    /// Pausa entre eventos. `0` nos testes.
    pub atraso_ms: u64,
    pub eventos: Vec<EventoAgente>,
}

/// Modelo que o roteiro de demonstração diz estar usando.
pub const MODELO_DEMONSTRACAO: &'static str = "opus-5";

/// A primeira linha do texto aparado, também aparada.
pub open spec fn primeira_linha(s: Seq<char>) -> Seq<char> {
    let ls = linhas(aparado(s));
    if ls.len() == 0 {
        Seq::empty()
    } else {
        aparado(ls[0])
    }
}

/// A primeira linha da pergunta, encurtada a 40 caracteres com reticências.
pub open spec fn resumo_curto_spec(s: Seq<char>) -> Seq<char> {
    let l = primeira_linha(s);
    if l.len() <= 40 {
        l
    } else {
        aparado(l.take(40)) + "…"@
    }
}

/// Primeira linha da pergunta, encurtada. Só para o roteiro de demonstração
/// parecer que leu o que foi perguntado.
pub fn resumo_curto(texto: &str) -> (r: String)
    ensures
        r@ == resumo_curto_spec(texto@),
{
    let limpo = aparar_chars(&chars_de(texto), Corte::Espaco);
    let ls = partir_linhas(&limpo);
    let linha = if ls.len() == 0 {
        Vec::new()
    } else {
        aparar_chars(&ls[0], Corte::Espaco)
    };
    if linha.len() <= 40 {
        return string_de(&linha);
    }
    let mut corte = aparar_chars(&primeiros(&linha, 40), Corte::Espaco);
    anexar(&mut corte, "…");
    string_de(&corte)
}

/// A resposta do roteiro de demonstração.
pub open spec fn resposta_demonstracao(pergunta: Seq<char>) -> Seq<char> {
    "Li o material sobre \""@ + resumo_curto_spec(pergunta)
        + "\". O ponto que salta é a cláusula de reajuste: ela cita um índice que não existe mais desde 2023."@
}

impl Roteiro {
    /// Turno de demonstração: pensa, lê um arquivo, responde e cobra.
    ///
    /// `custo_usd` é o que a tabela de preços dá para 1 420 tokens de entrada
    /// e 96 de saída do [`MODELO_DEMONSTRACAO`].
    pub fn demonstracao(pergunta: &str, custo_usd: Option<serde_json::Value>) -> (r: Roteiro)
        ensures
            r.atraso_ms == 90,
            r.eventos@.len() == 7,
            r.eventos@[0] matches EventoAgente::SessaoIniciada { id_externo, modelo, ferramentas }
                && id_externo@.len() == 14 && id_externo@.take(6) == "falso_"@ && modelo@
                == MODELO_DEMONSTRACAO@ && ferramentas@.map_values(|s: String| s@) == seq![
                "ler_arquivo"@,
                "listar_arquivos"@,
            ],
            r.eventos@[1] matches EventoAgente::Raciocinando { resumo } && resumo@
                == "Procurando o documento na pasta do workspace."@,
            r.eventos@[2] matches EventoAgente::FerramentaPedida { id, nome, argumentos } && id@
                == "fer_1"@ && nome@ == "ler_arquivo"@ && conteudo_json(argumentos)
                == ValorJson::Objeto(
                crate::json::mapa_de(seq![("caminho"@, ValorJson::Texto("contrato-v3.docx"@))]),
            ),
            r.eventos@[3] matches EventoAgente::FerramentaConcluida { id, resultado, erro } && id@
                == "fer_1"@ && erro is None && (resultado matches Some(v) && conteudo_json(v)
                == ValorJson::Objeto(
                crate::json::mapa_de(
                    seq![("bytes"@, ValorJson::Inteiro(48213)), ("truncado"@, ValorJson::Booleano(false))],
                ),
            )),
            r.eventos@[4] matches EventoAgente::TextoParcial { delta } && delta@ == "Li o material"@,
            r.eventos@[5] matches EventoAgente::TextoParcial { delta } && delta@
                == " sobre o documento."@,
            r.eventos@[6] matches EventoAgente::TurnoConcluido { texto_final, uso } && texto_final@
                == resposta_demonstracao(pergunta@) && uso.tokens_entrada == 1420
                && uso.tokens_saida == 96 && uso.custo_usd == custo_usd,
    {
        let mut resposta: Vec<char> = Vec::new();
        anexar(&mut resposta, "Li o material sobre \"");
        let resumo = resumo_curto(pergunta);
        anexar(&mut resposta, resumo.as_str());
        anexar(
            &mut resposta,
            "\". O ponto que salta é a cláusula de reajuste: ela cita um índice que não existe mais desde 2023.",
        );
        let uso = Uso { tokens_entrada: 1420, tokens_saida: 96, custo_usd };

        let id = novo_id();
        let mut externo: Vec<char> = Vec::new();
        anexar(&mut externo, "falso_");
        let cs = chars_de(id.as_str());
        let oito = primeiros(&cs, 8);
        anexar_chars(&mut externo, &oito);

        let mut ferramentas: Vec<String> = Vec::new();
        ferramentas.push("ler_arquivo".to_string());
        ferramentas.push("listar_arquivos".to_string());

        proof {
            reveal_strlit("falso_");
            assert(externo@.take(6) =~= "falso_"@);
            assert(ferramentas@.map_values(|s: String| s@) =~= seq!["ler_arquivo"@, "listar_arquivos"@]);
        }

        let mut args: Vec<(String, serde_json::Value)> = Vec::new();
        args.push(par("caminho", json_texto("contrato-v3.docx")));
        assert(args@.map_values(|p: (String, serde_json::Value)| (p.0@, conteudo_json(p.1)))
            =~= seq![("caminho"@, ValorJson::Texto("contrato-v3.docx"@))]);
        let mut lido: Vec<(String, serde_json::Value)> = Vec::new();
        lido.push(par("bytes", crate::json::json_u64(48213)));
        lido.push(par("truncado", crate::json::json_bool(false)));
        assert(lido@.map_values(|p: (String, serde_json::Value)| (p.0@, conteudo_json(p.1)))
            =~= seq![("bytes"@, ValorJson::Inteiro(48213)), ("truncado"@, ValorJson::Booleano(false))]);

        let mut eventos: Vec<EventoAgente> = Vec::new();
        eventos.push(
            EventoAgente::SessaoIniciada {
                id_externo: string_de(&externo),
                modelo: MODELO_DEMONSTRACAO.to_string(),
                ferramentas,
            },
        );
        eventos.push(
            EventoAgente::Raciocinando {
                resumo: "Procurando o documento na pasta do workspace.".to_string(),
            },
        );
        eventos.push(
            EventoAgente::FerramentaPedida {
                id: "fer_1".to_string(),
                nome: "ler_arquivo".to_string(),
                argumentos: json_objeto(args),
            },
        );
        eventos.push(
            EventoAgente::FerramentaConcluida {
                id: "fer_1".to_string(),
                resultado: Some(json_objeto(lido)),
                erro: None,
            },
        );
        eventos.push(EventoAgente::TextoParcial { delta: "Li o material".to_string() });
        eventos.push(EventoAgente::TextoParcial { delta: " sobre o documento.".to_string() });
        eventos.push(EventoAgente::TurnoConcluido { texto_final: string_de(&resposta), uso });
        Roteiro { atraso_ms: 90, eventos }
    }
}

} // verus!
